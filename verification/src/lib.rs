//! Verified core of a service for reserving shared spaces.
//!
//! Organizations reserve rooms and desks for fixed windows of time. This
//! crate holds the rules of that service and proves them with Verus:
//!
//! - [`booking`]: the table of reservations and the operations on it.
//!   A window is granted only if it overlaps no reservation on the same
//!   space; the table stays free of overlaps whatever is asked of it.
//! - [`window`] and [`instant`]: half-open windows, their length, and the
//!   calendar questions that the rules ask.
//! - [`jwt`] and [`guard`]: identity assertions, and which role may do
//!   what.
//! - [`spaces`], [`company`], [`employee`], [`admin`]: the directory that
//!   the reservations refer to.
//! - [`user`], [`player`]: accounts and a roster that belong to no
//!   company.
//! - [`error`]: every failure and the status code that answers it.
//!
//! The crate does no input or output. It is handed the rows that a
//! decision rests on and answers with the decision and the rows as they
//! then stand. Signing, hashing and calendar arithmetic are left to the
//! crates made for them; what is relied on of those is stated where they
//! are called.

pub mod admin;
pub mod booking;
pub mod company;
pub mod employee;
pub mod error;
pub mod guard;
pub mod instant;
pub mod jwt;
pub mod password;
pub mod player;
pub mod query;
pub mod search;
pub mod spaces;
pub mod text;
pub mod user;
pub mod window;
