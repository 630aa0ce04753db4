//! The logic of a keyboard-driven money book: lists and their cursors, forms
//! and their fields, and the dispatch that decides what each key means.
//!
//! Nothing here draws, reads a clock or touches a database. Every function
//! works on plain values and says in its contract what it returns; the
//! terminal and the store sit around the library and carry out the actions it
//! answers with.

pub mod accounts;
pub mod amount;
pub mod app;
pub mod app_view;
pub mod autocomplete;
pub mod confirm;
pub mod cursor;
pub mod date;
pub mod destination;
pub mod dial;
pub mod fault;
pub mod field;
pub mod form;
pub mod form_keys;
pub mod funds;
pub mod help;
pub mod history;
pub mod ids;
pub mod key;
pub mod keyboard;
pub mod label;
pub mod laws;
pub mod ledger;
pub mod modal;
pub mod money;
pub mod payday;
pub mod picker;
pub mod plan_line;
pub mod planning;
pub mod posting;
pub mod recurring;
pub mod said;
pub mod savings;
pub mod screen;
pub mod search;
pub mod step;
pub mod text;
pub mod value_form;
pub mod worksheet;
pub mod written;
