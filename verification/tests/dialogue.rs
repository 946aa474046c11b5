use bookclub::telegram::command::{
    split_dates, split_dates_at, unreadable_date, Command, ParseError,
};
use bookclub::telegram::dialogue::{
    callback_handler, command_handler, echo_reply, message_handler, message_handler_at,
    poll_reply, Action, HandlerError, State,
};
use bookclub::telegram::keyboard::{button, make_keyboard, Keyboard};
use bookclub::telegram::moment::Moment;
use bookclub::telegram::selection::Selection;

const NEW_YEAR_2024: i64 = 1_704_067_200;

fn now() -> Option<Moment> {
    Moment::new(1_700_000_000, 0)
}

fn day(n: i64) -> Moment {
    Moment::new(NEW_YEAR_2024 + n * 86_400, 0).unwrap()
}

fn pairs(keyboard: &Keyboard) -> Vec<(String, String)> {
    let mut out = Vec::new();
    for row in &keyboard.rows {
        assert_eq!(row.len(), 1);
        out.push((row[0].text.clone(), row[0].data.clone()));
    }
    out
}

fn pair(text: &str, data: &str) -> (String, String) {
    (text.to_string(), data.to_string())
}

fn sent(action: &Action) -> String {
    match action {
        Action::Send { text } => text.clone(),
        other => panic!("not a plain message: {:?}", other),
    }
}

#[test]
fn poll_of_three_days_has_three_buttons_in_order() {
    let actions =
        message_handler_at(Some("/polldate 2024-01-01 to 2024-01-04"), "clubbot", &now()).unwrap();
    assert_eq!(actions.len(), 3);
    assert_eq!(
        sent(&actions[0]),
        "start: 2024-01-01 00:00:00 +00:00, end: 2024-01-04 00:00:00 +00:00"
    );
    match &actions[1] {
        Action::Store { state: State::Polling { start, end, selected } } => {
            assert_eq!(start.timestamp(), NEW_YEAR_2024);
            assert_eq!(end.timestamp(), NEW_YEAR_2024 + 3 * 86_400);
            assert!(selected.keys().is_empty());
        }
        other => panic!("no poll stored: {:?}", other),
    }
    match &actions[2] {
        Action::SendKeyboard { text, keyboard } => {
            assert_eq!(text, "Select Days");
            assert_eq!(
                pairs(keyboard),
                vec![
                    pair("Mon 01 Jan", "2024-01-01"),
                    pair("Tue 02 Jan", "2024-01-02"),
                    pair("Wed 03 Jan", "2024-01-03"),
                ]
            );
        }
        other => panic!("no keyboard sent: {:?}", other),
    }
}

#[test]
fn keyboard_covers_whole_days_and_leaves_the_end_out() {
    let none = Selection::new();
    assert_eq!(make_keyboard(&day(0), &day(3), &none).rows.len(), 3);
    assert_eq!(make_keyboard(&day(0), &day(0), &none).rows.len(), 0);
    assert_eq!(make_keyboard(&day(3), &day(0), &none).rows.len(), 0);
    let almost = Moment::new(NEW_YEAR_2024 + 86_399, 0).unwrap();
    assert_eq!(make_keyboard(&day(0), &almost, &none).rows.len(), 0);
    let just = Moment::new(NEW_YEAR_2024 + 86_400, 0).unwrap();
    assert_eq!(pairs(&make_keyboard(&day(0), &just, &none)), vec![pair("Mon 01 Jan", "2024-01-01")]);
}

#[test]
fn keyboard_marks_the_chosen_days() {
    let mut selected = Selection::new();
    selected.toggle("2024-01-02");
    selected.toggle("2025-05-05");
    assert_eq!(
        pairs(&make_keyboard(&day(0), &day(3), &selected)),
        vec![
            pair("Mon 01 Jan", "2024-01-01"),
            pair("Tue 02 Jan ✅", "2024-01-02"),
            pair("Wed 03 Jan", "2024-01-03"),
        ]
    );
}

#[test]
fn keyboard_follows_the_clock_of_the_start() {
    let start = Moment::new(NEW_YEAR_2024 - 3600, -7200).unwrap();
    let end = Moment::new(NEW_YEAR_2024 - 3600 + 2 * 86_400, 0).unwrap();
    assert_eq!(
        pairs(&make_keyboard(&start, &end, &Selection::new())),
        vec![pair("Sun 31 Dec", "2023-12-31"), pair("Mon 01 Jan", "2024-01-01")]
    );
}

#[test]
fn button_shows_the_mark_only_when_chosen() {
    let plain = button("Mon 01 Jan".to_string(), "2024-01-01".to_string(), false);
    assert_eq!(plain.text, "Mon 01 Jan");
    assert_eq!(plain.data, "2024-01-01");
    let chosen = button("Mon 01 Jan".to_string(), "2024-01-01".to_string(), true);
    assert_eq!(chosen.text, "Mon 01 Jan ✅");
    assert_eq!(chosen.data, "2024-01-01");
}

#[test]
fn echo_says_the_text_back_and_stores_nothing() {
    let actions = message_handler_at(Some("/echo hi there"), "clubbot", &now()).unwrap();
    assert_eq!(actions.len(), 1);
    assert_eq!(sent(&actions[0]), "you said 'hi there'");
    let actions = message_handler(Some("/echo hi there"), "clubbot").unwrap();
    assert_eq!(actions.len(), 1);
    assert_eq!(sent(&actions[0]), "you said 'hi there'");
    let actions = message_handler_at(Some("/echo"), "clubbot", &None).unwrap();
    assert_eq!(sent(&actions[0]), "you said ''");
    let actions = message_handler_at(Some("/echo  two  spaces "), "clubbot", &None).unwrap();
    assert_eq!(sent(&actions[0]), "you said ' two  spaces '");
}

#[test]
fn poll_without_separator_is_refused_and_help_still_works() {
    let actions = message_handler_at(Some("/polldate 2024-01-01"), "clubbot", &now()).unwrap();
    assert_eq!(actions.len(), 1);
    assert_eq!(sent(&actions[0]), "dates must be separated by 'to'");
    let actions = message_handler_at(Some("/polldate whenever"), "clubbot", &now()).unwrap();
    assert_eq!(actions.len(), 1);
    assert_eq!(
        sent(&actions[0]),
        "unable to parse start date: DateError { details: \"expected week day or month name\" } 'whenever'"
    );
    let actions = message_handler_at(Some("/help"), "clubbot", &now()).unwrap();
    assert_eq!(actions.len(), 1);
    assert_eq!(
        sent(&actions[0]),
        "These commands are supported:\n\n/echo — echo the text\n/polldate — create a poll for dates between start and end\n/help — display this text"
    );
}

#[test]
fn message_without_text_is_not_handled() {
    assert_eq!(message_handler_at(None, "clubbot", &now()).unwrap_err(), HandlerError::NoText);
    assert_eq!(message_handler(None, "clubbot").unwrap_err(), HandlerError::NoText);
    assert_eq!(HandlerError::NoText.message(), "No text in message");
}

#[test]
fn split_dates_names_the_side_that_failed() {
    match split_dates_at("2024-01-01 to never", &now()) {
        Err(ParseError::Custom(text)) => assert_eq!(
            text,
            "unable to parse end date: DateError { details: \"expected week day or month name\" } 'never'"
        ),
        other => panic!("{:?}", other),
    }
    match split_dates_at("never to 2024-01-01", &now()) {
        Err(ParseError::Custom(text)) => assert_eq!(
            text,
            "unable to parse start date: DateError { details: \"expected week day or month name\" } 'never'"
        ),
        other => panic!("{:?}", other),
    }
    match split_dates_at("2024-01-01 to é", &now()) {
        Err(ParseError::Custom(text)) => {
            assert_eq!(text, "unable to parse end date: unsupported date text 'é'")
        }
        other => panic!("{:?}", other),
    }
    match split_dates_at("2024-01-01 to 2024-01-02", &None) {
        Err(ParseError::Custom(text)) => assert_eq!(
            text,
            "unable to parse start date: the clock is out of range '2024-01-01'"
        ),
        other => panic!("{:?}", other),
    }
}

#[test]
fn split_dates_reads_the_first_two_pieces() {
    let (start, end) = split_dates_at("1 jan 2024 to 4 jan 2024 to 9 jan 2024", &now()).unwrap();
    assert_eq!(start.day_key(), "2024-01-01");
    assert_eq!(end.day_key(), "2024-01-04");
    let (start, end) = split_dates_at("2024-01-01 to 2024-01-04", &now()).unwrap();
    assert_eq!(start.timestamp(), NEW_YEAR_2024);
    assert_eq!(end.timestamp(), NEW_YEAR_2024 + 3 * 86_400);
    let (start, end) = split_dates("2024-01-01 to 2024-01-04".to_string()).unwrap();
    assert_eq!(start.day_key(), "2024-01-01");
    assert_eq!(end.day_key(), "2024-01-04");
    assert_eq!(start.days_until(&end), 3);
}

#[test]
fn parse_knows_the_three_commands() {
    match Command::parse_at("/echo a b", "clubbot", &now()) {
        Ok(Command::Echo(text)) => assert_eq!(text, "a b"),
        other => panic!("{:?}", other),
    }
    assert!(matches!(Command::parse_at("/help", "clubbot", &now()), Ok(Command::Help)));
    assert!(matches!(Command::parse_at("/help me", "clubbot", &now()), Ok(Command::Help)));
    assert!(matches!(
        Command::parse_at("/polldate tomorrow to 3 days", "clubbot", &now()),
        Ok(Command::PollDate { .. })
    ));
    assert!(matches!(Command::parse("/help", "clubbot"), Ok(Command::Help)));
}

#[test]
fn parse_refuses_unknown_commands() {
    match Command::parse_at("/Echo hi", "clubbot", &now()) {
        Err(error @ ParseError::UnknownCommand(_)) => {
            assert_eq!(error.message(), "Unknown command: /Echo")
        }
        other => panic!("{:?}", other),
    }
    match Command::parse_at("hello there", "clubbot", &now()) {
        Err(error @ ParseError::UnknownCommand(_)) => {
            assert_eq!(error.message(), "Unknown command: hello")
        }
        other => panic!("{:?}", other),
    }
    match Command::parse_at("", "clubbot", &now()) {
        Err(error @ ParseError::UnknownCommand(_)) => assert_eq!(error.message(), "Unknown command: "),
        other => panic!("{:?}", other),
    }
}

#[test]
fn parse_checks_the_bot_that_is_addressed() {
    assert!(matches!(Command::parse_at("/help@ClubBot", "clubbot", &now()), Ok(Command::Help)));
    assert!(matches!(Command::parse_at("/help@clubbot@x", "clubbot", &now()), Ok(Command::Help)));
    match Command::parse_at("/help@otherbot", "clubbot", &now()) {
        Err(error @ ParseError::WrongBotName(_)) => {
            assert_eq!(error.message(), "Wrong bot name: otherbot")
        }
        other => panic!("{:?}", other),
    }
    match Command::parse_at("/nothing@otherbot now", "clubbot", &now()) {
        Err(ParseError::WrongBotName(name)) => assert_eq!(name, "otherbot"),
        other => panic!("{:?}", other),
    }
    match Command::parse_at("/help@", "clubbot", &now()) {
        Err(ParseError::WrongBotName(name)) => assert_eq!(name, ""),
        other => panic!("{:?}", other),
    }
    match Command::parse_at("/echo@clubbot hi @you", "clubbot", &now()) {
        Ok(Command::Echo(text)) => assert_eq!(text, "hi @you"),
        other => panic!("{:?}", other),
    }
}

#[test]
fn command_handler_answers_an_error_with_its_message() {
    let actions = command_handler(Err(ParseError::Custom("no".to_string())));
    assert_eq!(actions.len(), 1);
    assert_eq!(sent(&actions[0]), "no");
}

#[test]
fn tap_outside_a_poll_does_nothing() {
    let actions =
        callback_handler(State::Start, Some("2024-01-01"), Some("m1".to_string()), None);
    assert!(actions.is_empty());
    assert!(matches!(State::default(), State::Start));
}

#[test]
fn tap_without_a_message_does_nothing() {
    let state = State::Polling { start: day(0), end: day(3), selected: Selection::new() };
    assert!(callback_handler(state, Some("2024-01-01"), None, None).is_empty());
}

#[test]
fn tap_toggles_the_day_then_stores_then_redraws() {
    let state = State::Polling { start: day(0), end: day(3), selected: Selection::new() };
    let mut actions = callback_handler(state, Some("2024-01-02"), None, Some("42".to_string()));
    assert_eq!(actions.len(), 2);
    match &actions[1] {
        Action::EditKeyboard { message_id, keyboard } => {
            assert_eq!(message_id, "42");
            assert_eq!(
                pairs(keyboard),
                vec![
                    pair("Mon 01 Jan", "2024-01-01"),
                    pair("Tue 02 Jan ✅", "2024-01-02"),
                    pair("Wed 03 Jan", "2024-01-03"),
                ]
            );
        }
        other => panic!("{:?}", other),
    }
    let stored = match actions.remove(0) {
        Action::Store { state } => state,
        other => panic!("{:?}", other),
    };
    match &stored {
        State::Polling { selected, .. } => {
            assert!(selected.contains("2024-01-02"));
            assert_eq!(selected.keys().len(), 1);
        }
        other => panic!("{:?}", other),
    }
    let actions =
        callback_handler(stored, Some("2024-01-02"), Some("inline".to_string()), Some("42".to_string()));
    match &actions[0] {
        Action::Store { state: State::Polling { selected, .. } } => {
            assert!(selected.keys().is_empty())
        }
        other => panic!("{:?}", other),
    }
    match &actions[1] {
        Action::EditKeyboard { message_id, keyboard } => {
            assert_eq!(message_id, "inline");
            assert_eq!(pairs(keyboard)[1], pair("Tue 02 Jan", "2024-01-02"));
        }
        other => panic!("{:?}", other),
    }
}

#[test]
fn tap_without_data_only_redraws() {
    let mut selected = Selection::new();
    selected.toggle("2024-01-01");
    let state = State::Polling { start: day(0), end: day(2), selected };
    let actions = callback_handler(state, None, Some("m".to_string()), None);
    assert_eq!(actions.len(), 2);
    match &actions[0] {
        Action::Store { state: State::Polling { selected, .. } } => {
            assert_eq!(selected.keys(), vec!["2024-01-01".to_string()])
        }
        other => panic!("{:?}", other),
    }
    match &actions[1] {
        Action::EditKeyboard { keyboard, .. } => assert_eq!(
            pairs(keyboard),
            vec![pair("Mon 01 Jan ✅", "2024-01-01"), pair("Tue 02 Jan", "2024-01-02")]
        ),
        other => panic!("{:?}", other),
    }
}

#[test]
fn selection_holds_each_key_once() {
    let mut selection = Selection::new();
    assert!(!selection.contains("a"));
    selection.toggle("a");
    selection.toggle("b");
    assert!(selection.contains("a"));
    assert!(selection.contains("b"));
    assert_eq!(selection.keys().len(), 2);
    selection.toggle("a");
    assert!(!selection.contains("a"));
    assert_eq!(selection.keys(), vec!["b".to_string()]);
    selection.toggle("a");
    assert_eq!(selection.keys(), vec!["b".to_string(), "a".to_string()]);
    let copy = selection.clone();
    assert_eq!(copy.keys(), selection.keys());
    let from = Selection::from_keys(&vec!["x".to_string(), "y".to_string(), "x".to_string()]);
    assert_eq!(from.keys(), vec!["x".to_string(), "y".to_string()]);
}

#[test]
fn replies_are_put_together_from_their_parts() {
    assert_eq!(echo_reply("hi there"), "you said 'hi there'");
    assert_eq!(poll_reply("a", "b"), "start: a, end: b");
    assert_eq!(
        unreadable_date("start", "bad date", "32 jan").message(),
        "unable to parse start date: bad date '32 jan'"
    );
}
