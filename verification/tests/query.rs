use space_booking::query::{paginate, Page, DEFAULT_LIMIT, DEFAULT_PAGE};

#[test]
fn the_defaults_are_the_first_page_of_ten() {
    assert_eq!(DEFAULT_PAGE, 1);
    assert_eq!(DEFAULT_LIMIT, 10);
    assert_eq!(paginate(None, None), Some(Page { page: 1, limit: 10, offset: 0 }));
}

#[test]
fn the_offset_counts_the_items_on_the_pages_before() {
    assert_eq!(paginate(Some(3), Some(25)), Some(Page { page: 3, limit: 25, offset: 50 }));
    assert_eq!(paginate(Some(2), None), Some(Page { page: 2, limit: 10, offset: 10 }));
    assert_eq!(paginate(None, Some(7)), Some(Page { page: 1, limit: 7, offset: 0 }));
    assert_eq!(paginate(Some(0), Some(5)), Some(Page { page: 0, limit: 5, offset: -5 }));
    assert_eq!(paginate(Some(-1), Some(-3)), Some(Page { page: -1, limit: -3, offset: 6 }));
}

#[test]
fn an_offset_that_cannot_be_written_down_gives_nothing() {
    assert_eq!(paginate(Some(i64::MAX), Some(2)), None);
    assert_eq!(paginate(Some(i64::MIN), Some(1)), None);
    assert_eq!(paginate(Some(i64::MIN), Some(-1)), None);
    assert_eq!(paginate(Some(i64::MIN + 1), Some(-1)), None);
    assert_eq!(
        paginate(Some(i64::MIN), Some(0)),
        Some(Page { page: i64::MIN, limit: 0, offset: 0 })
    );
    assert_eq!(
        paginate(Some(i64::MAX), Some(1)),
        Some(Page { page: i64::MAX, limit: 1, offset: i64::MAX - 1 })
    );
    assert_eq!(
        paginate(Some(i64::MIN + 2), Some(-1)),
        Some(Page { page: i64::MIN + 2, limit: -1, offset: i64::MAX })
    );
}
