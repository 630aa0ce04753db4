use moneybook::screen::{Move, Screen, Topic};

/// The bar highlights the current tab by its index, so a screen out of order
/// in the list would draw one label and underline another. The match is
/// exhaustive, so a tenth screen stops this compiling until it is listed and
/// counted here too.
#[test]
fn every_screen_is_listed_in_discriminant_order() {
    for (i, screen) in Screen::all().into_iter().enumerate() {
        match screen {
            Screen::Overview
            | Screen::Cash
            | Screen::Credit
            | Screen::Savings
            | Screen::Planning
            | Screen::Funds
            | Screen::RecurringGoals
            | Screen::RecurringTxns
            | Screen::Accounts => {}
        }
        assert_eq!(screen as usize, i, "{screen:?} is out of order");
        assert_eq!(screen.index(), i);
    }
    assert_eq!(Screen::all().len(), 9);
}

/// The tab bar highlights by a screen's index and labels each tab with the
/// digit that reaches it, so the digit and the index are one fact stated in
/// two places.
#[test]
fn each_screen_key_selects_the_tab_the_bar_labels_with_it() {
    for (index, digit) in ('1'..='9').enumerate() {
        let screen = Screen::from_key(digit).expect("no screen for a tab-bar digit");
        assert_eq!(screen as usize, index, "key {digit}");
    }
    assert_eq!(Screen::from_key('0'), None);
    assert_eq!(Screen::from_key('a'), None);
}

#[test]
fn a_tab_is_labelled_with_its_digit() {
    assert_eq!(Screen::Overview.tab_label(), "1 Overview");
    assert_eq!(Screen::RecurringGoals.tab_label(), "7 Goals");
    assert_eq!(Screen::Accounts.tab_label(), "9 Accounts");
}

#[test]
fn a_move_stops_at_both_ends_of_the_block() {
    assert_eq!(Move::Up.applied(0, 3), None);
    assert_eq!(Move::Up.applied(2, 3), Some(1));
    assert_eq!(Move::Down.applied(2, 3), None);
    assert_eq!(Move::Down.applied(0, 3), Some(1));
}

#[test]
fn only_a_screen_answers_the_app_wide_keys() {
    assert!(Topic::Ledger.answers_app_wide_keys());
    for topic in [
        Topic::LedgerSearch,
        Topic::Form,
        Topic::SuggestForm,
        Topic::Confirm,
        Topic::Worksheet,
        Topic::History,
    ] {
        assert!(!topic.answers_app_wide_keys(), "{topic:?}");
    }
}

#[test]
fn a_worksheet_has_a_caret_and_types_no_question_mark() {
    assert!(Topic::Worksheet.takes_editing_keys());
    assert!(!Topic::Worksheet.takes_typed_chars());
    assert!(Topic::SuggestForm.takes_typed_chars());
    assert!(!Topic::Savings.takes_editing_keys());
}
