use space_booking::player::{create_player, CreatePlayerReq, PlayerRow};
use space_booking::user::{find_user, login_user, LoginUser, RegisterUser, User};

// "password", hashed elsewhere at a low cost.
const PASSWORD_HASH: &str = "$2a$04$UuTkLRZZ6QofpDOlMz32MuuxEHA43WOemOYHPz6.SjsVsyO1tDU96";

fn users() -> Vec<User> {
    vec![
        User {
            id: 1,
            name: String::from("Ann"),
            email: String::from("ann@example.com"),
            password_hash: String::from(PASSWORD_HASH),
        },
        User {
            id: 2,
            name: String::from("Ben"),
            email: String::from("ben@example.com"),
            password_hash: String::from("not a hash"),
        },
    ]
}

fn login(email: &str, password: &str) -> LoginUser {
    LoginUser { email: String::from(email), password: String::from(password) }
}

#[test]
fn a_user_is_found_by_the_exact_address() {
    assert_eq!(find_user(&users(), "ben@example.com"), Some(1));
    assert_eq!(find_user(&users(), "Ben@example.com"), None);
    assert_eq!(find_user(&Vec::new(), "ben@example.com"), None);
    let request = RegisterUser {
        name: String::from("Ann"),
        email: String::from("ann@example.com"),
        password: String::from("password"),
    };
    assert_eq!(find_user(&users(), &request.email), Some(0));
}

#[test]
fn a_user_logs_in_with_the_right_password() {
    assert_eq!(login_user(&users(), &login("ann@example.com", "password")).unwrap(), 0);
}

#[test]
fn an_unknown_user_is_turned_away_under_other_words_than_a_wrong_password() {
    let e = login_user(&users(), &login("zoe@example.com", "password")).unwrap_err();
    assert_eq!(e.status, 401);
    assert_eq!(e.message, "invalid credentials");
    let e = login_user(&users(), &login("ann@example.com", "Password")).unwrap_err();
    assert_eq!(e.status, 401);
    assert_eq!(e.message, "invalid password");
    let e = login_user(&users(), &login("ben@example.com", "password")).unwrap_err();
    assert_eq!(e.status, 401);
    assert_eq!(e.message, "invalid password");
}

#[test]
fn a_player_is_entered_under_the_number_given() {
    let request = CreatePlayerReq { name: String::from("Kit"), age: 19, wing: 2 };
    let PlayerRow { player_id, name, age, wing } = create_player(&request, 41);
    assert_eq!(player_id, 41);
    assert_eq!(name, "Kit");
    assert_eq!(age, 19);
    assert_eq!(wing, 2);
}
