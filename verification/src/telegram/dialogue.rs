//! The dialogue of a conversation: what the bot does on a message and on a tap, and what
//! it remembers.
use crate::telegram::command::{
    arguments_of, command_view, date_separator, descriptions_view, head_of,
    lemma_dates_need_separator, mention_of, name_of, parse_error_message, parse_view, Command,
    CommandView, ParseError, ParseErrorView,
};
use crate::text::{find_from, same_ignoring_ascii_case};
use crate::telegram::keyboard::{keyboard_view, make_keyboard, ButtonView, Keyboard};
use crate::telegram::moment::{displayed, Moment, MomentView};
use crate::telegram::selection::Selection;
use vstd::prelude::*;
use vstd::string::*;

verus! {

/// What the bot remembers of a conversation.
#[derive(Debug)]
pub enum State {
    /// Nothing yet.
    Start,
    /// A poll for the days from `start` up to `end`, of which those in `selected` are
    /// chosen.
    Polling { start: Moment, end: Moment, selected: Selection },
}

/// `State` as plain values, for contracts.
pub enum StateView {
    Start,
    Polling { start: MomentView, end: MomentView, selected: Set<Seq<char>> },
}

impl View for State {
    type V = StateView;

    open spec fn view(&self) -> StateView {
        match self {
            State::Start => StateView::Start,
            State::Polling { start, end, selected } => StateView::Polling {
                start: start@,
                end: end@,
                selected: selected@,
            },
        }
    }
}

impl Default for State {
    /// A conversation begins with nothing remembered.
    fn default() -> (state: State)
        ensures
            state@ == StateView::Start,
    {
        State::Start
    }
}

/// What the bot is to do, in the order in which it is to be done. If one step fails, the
/// steps behind it are left out.
#[derive(Debug)]
pub enum Action {
    /// Send `text` to the conversation.
    Send { text: String },
    /// Send `text` to the conversation, with `keyboard` under it.
    SendKeyboard { text: String, keyboard: Keyboard },
    /// Put `keyboard` under the message `message_id`, in place of the keyboard it has.
    EditKeyboard { message_id: String, keyboard: Keyboard },
    /// Remember `state` for the conversation, in place of what was remembered.
    Store { state: State },
}

/// `Action` as plain values, for contracts.
pub enum ActionView {
    Send { text: Seq<char> },
    SendKeyboard { text: Seq<char>, keyboard: Seq<Seq<ButtonView>> },
    EditKeyboard { message_id: Seq<char>, keyboard: Seq<Seq<ButtonView>> },
    Store { state: StateView },
}

impl View for Action {
    type V = ActionView;

    open spec fn view(&self) -> ActionView {
        match self {
            Action::Send { text } => ActionView::Send { text: text@ },
            Action::SendKeyboard { text, keyboard } => ActionView::SendKeyboard {
                text: text@,
                keyboard: keyboard@,
            },
            Action::EditKeyboard { message_id, keyboard } => ActionView::EditKeyboard {
                message_id: message_id@,
                keyboard: keyboard@,
            },
            Action::Store { state } => ActionView::Store { state: state@ },
        }
    }
}

impl DeepView for Action {
    type V = ActionView;

    open spec fn deep_view(&self) -> ActionView {
        self@
    }
}

/// What is remembered once `actions` are done, when `state` was remembered before: the
/// state that was stored last, or `state` where none was stored.
pub open spec fn state_after(state: StateView, actions: Seq<ActionView>) -> StateView
    decreases actions.len(),
{
    if actions.len() == 0 {
        state
    } else {
        match actions.last() {
            ActionView::Store { state: stored } => stored,
            _ => state_after(state, actions.drop_last()),
        }
    }
}

/// The answer to `/echo`: the text between quotes behind `you said`.
pub open spec fn echo_text(text: Seq<char>) -> Seq<char> {
    "you said '"@ + text + "'"@
}

/// The answer to `/polldate` for a poll whose start and end are written as `start` and
/// `end`.
pub open spec fn poll_line(start: Seq<char>, end: Seq<char>) -> Seq<char> {
    "start: "@ + start + ", end: "@ + end
}

/// The answer to `/polldate`: the two dates as the poll understood them.
pub open spec fn poll_text(start: MomentView, end: MomentView) -> Seq<char> {
    poll_line(displayed(start.timestamp, start.offset), displayed(end.timestamp, end.offset))
}

/// What the bot does on the outcome of reading a message as a command.
///
/// Only `/polldate` changes what is remembered: it begins a poll in which no day is
/// chosen, after the answer that names the dates and before the keyboard is sent. A
/// message that is no command is answered with the reason.
pub open spec fn command_actions(outcome: Result<CommandView, ParseErrorView>) -> Seq<ActionView> {
    match outcome {
        Ok(CommandView::Echo(text)) => seq![ActionView::Send { text: echo_text(text) }],
        Ok(CommandView::PollDate { start, end }) => seq![
            ActionView::Send { text: poll_text(start, end) },
            ActionView::Store {
                state: StateView::Polling { start, end, selected: Set::<Seq<char>>::empty() },
            },
            ActionView::SendKeyboard {
                text: "Select Days"@,
                keyboard: keyboard_view(start, end, Set::<Seq<char>>::empty()),
            },
        ],
        Ok(CommandView::Help) => seq![ActionView::Send { text: descriptions_view() }],
        Err(error) => seq![ActionView::Send { text: parse_error_message(error) }],
    }
}

/// What the bot does on the message `text` to the bot named `bot_name` at `now`. A message
/// without text is answered by nothing.
pub open spec fn message_actions(
    text: Option<Seq<char>>,
    bot_name: Seq<char>,
    now: Option<MomentView>,
) -> Option<Seq<ActionView>> {
    match text {
        Some(text) => Some(command_actions(parse_view(text, bot_name, now))),
        None => None,
    }
}

/// The days that are chosen after a tap that reports `data`: the day that the tap names
/// is chosen if it was not, and dropped if it was.
pub open spec fn toggled(selected: Set<Seq<char>>, data: Option<Seq<char>>) -> Set<Seq<char>> {
    match data {
        Some(key) => if selected.contains(key) {
            selected.remove(key)
        } else {
            selected.insert(key)
        },
        None => selected,
    }
}

/// The message that a tap belongs to: the inline message where there is one, else the
/// message of the chat.
pub open spec fn tapped_message(
    inline_message_id: Option<Seq<char>>,
    message_id: Option<Seq<char>>,
) -> Option<Seq<char>> {
    match inline_message_id {
        Some(id) => Some(id),
        None => message_id,
    }
}

/// What the bot does on a tap that reports `data` on the message that the two identifiers
/// name, when `state` is remembered.
///
/// Outside a poll, and where the tap names no message, nothing is done. In a poll the day
/// that the tap names changes sides; the poll is then remembered with the days as they
/// are chosen now, and the keyboard of the message is drawn anew from them.
pub open spec fn callback_actions(
    state: StateView,
    data: Option<Seq<char>>,
    inline_message_id: Option<Seq<char>>,
    message_id: Option<Seq<char>>,
) -> Seq<ActionView> {
    match (state, tapped_message(inline_message_id, message_id)) {
        (StateView::Polling { start, end, selected }, Some(id)) => {
            let chosen = toggled(selected, data);
            seq![
                ActionView::Store { state: StateView::Polling { start, end, selected: chosen } },
                ActionView::EditKeyboard {
                    message_id: id,
                    keyboard: keyboard_view(start, end, chosen),
                },
            ]
        },
        _ => Seq::empty(),
    }
}

/// Why a message was not handled.
#[derive(Clone, Copy, Debug, PartialEq, Eq, Structural)]
pub enum HandlerError {
    /// The message holds no text.
    NoText,
}

impl HandlerError {
    /// The text that tells of this error.
    pub fn message(&self) -> (text: String)
        ensures
            text@ == "No text in message"@,
    {
        String::from_str("No text in message")
    }
}

/// What the handling of a message gave, as plain values: the actions, or nothing where
/// the message was not handled.
pub open spec fn handled_view(r: Result<Vec<Action>, HandlerError>) -> Option<Seq<ActionView>> {
    match r {
        Ok(actions) => Some(actions.deep_view()),
        Err(_) => None,
    }
}

/// The answer to `/echo` with `text`.
pub fn echo_reply(text: &str) -> (reply: String)
    ensures
        reply@ == echo_text(text@),
{
    let mut reply = String::from_str("you said '");
    reply.append(text);
    reply.append("'");
    reply
}

/// The answer to `/polldate` for a poll whose start and end are written as `start` and
/// `end`.
pub fn poll_reply(start: &str, end: &str) -> (reply: String)
    ensures
        reply@ == poll_line(start@, end@),
{
    let mut reply = String::from_str("start: ");
    reply.append(start);
    reply.append(", end: ");
    reply.append(end);
    reply
}

/// What the bot does on the outcome of reading a message as a command.
pub fn command_handler(outcome: Result<Command, ParseError>) -> (actions: Vec<Action>)
    ensures
        actions.deep_view() == command_actions(command_view(outcome)),
{
    let mut actions: Vec<Action> = Vec::new();
    match outcome {
        Ok(Command::Echo(text)) => {
            let send = Action::Send { text: echo_reply(text.as_str()) };
            actions.push(send);
            assert(actions.deep_view() =~= seq![send@]);
        },
        Ok(Command::PollDate { start, end }) => {
            let selected = Selection::new();
            let keyboard = make_keyboard(&start, &end, &selected);
            let send = Action::Send {
                text: poll_reply(start.to_text().as_str(), end.to_text().as_str()),
            };
            let store = Action::Store { state: State::Polling { start, end, selected } };
            let ask = Action::SendKeyboard { text: String::from_str("Select Days"), keyboard };
            actions.push(send);
            actions.push(store);
            actions.push(ask);
            assert(actions.deep_view() =~= seq![send@, store@, ask@]);
        },
        Ok(Command::Help) => {
            let send = Action::Send { text: Command::descriptions() };
            actions.push(send);
            assert(actions.deep_view() =~= seq![send@]);
        },
        Err(error) => {
            let send = Action::Send { text: error.message() };
            actions.push(send);
            assert(actions.deep_view() =~= seq![send@]);
        },
    }
    actions
}

/// What the bot does on the message `text` to the bot named `bot_name` at `now`.
pub fn message_handler_at(text: Option<&str>, bot_name: &str, now: &Option<Moment>) -> (r: Result<
    Vec<Action>,
    HandlerError,
>)
    ensures
        handled_view(r) == message_actions(text.deep_view(), bot_name@, now.deep_view()),
{
    match text {
        None => Err(HandlerError::NoText),
        Some(text) => Ok(command_handler(Command::parse_at(text, bot_name, now))),
    }
}

/// What the bot does on the message `text` to the bot named `bot_name`, now. The moment
/// at which dates are read is that of the local clock; what is returned is what
/// `message_actions` says for that moment, or for no moment where the clock shows none.
pub fn message_handler(text: Option<&str>, bot_name: &str) -> (r: Result<Vec<Action>, HandlerError>)
    ensures
        exists|now: Option<MomentView>|
            handled_view(r) == #[trigger] message_actions(text.deep_view(), bot_name@, now),
        r is Err <==> text is None,
{
    let now = Moment::now();
    let r = message_handler_at(text, bot_name, &now);
    assert(handled_view(r) == message_actions(text.deep_view(), bot_name@, now.deep_view()));
    r
}

/// What the bot does on a tap that reports `data` on the message that the two identifiers
/// name, when `state` is remembered.
pub fn callback_handler(
    state: State,
    data: Option<&str>,
    inline_message_id: Option<String>,
    message_id: Option<String>,
) -> (actions: Vec<Action>)
    ensures
        actions.deep_view() == callback_actions(
            state@,
            data.deep_view(),
            inline_message_id.deep_view(),
            message_id.deep_view(),
        ),
{
    let mut actions: Vec<Action> = Vec::new();
    let tapped = match inline_message_id {
        Some(id) => Some(id),
        None => message_id,
    };
    match state {
        State::Polling { start, end, selected } => match tapped {
            Some(id) => {
                let mut selected = selected;
                match data {
                    Some(key) => {
                        selected.toggle(key);
                    },
                    None => {},
                }
                let keyboard = make_keyboard(&start, &end, &selected);
                let store = Action::Store { state: State::Polling { start, end, selected } };
                let edit = Action::EditKeyboard { message_id: id, keyboard };
                actions.push(store);
                actions.push(edit);
                assert(actions.deep_view() =~= seq![store@, edit@]);
            },
            None => {
                assert(actions.deep_view() =~= Seq::empty());
            },
        },
        State::Start => {
            assert(actions.deep_view() =~= Seq::empty());
        },
    }
    actions
}

/// Echo says the text back and leaves what is remembered as it is. On a message that
/// reads as `/echo`, whatever is remembered and whenever it comes, the bot sends
/// `you said '..'` with the text in place of the dots, and does nothing else.
pub proof fn lemma_echo_keeps_state(text: Seq<char>, state: StateView)
    ensures
        command_actions(Ok(CommandView::Echo(text))) == seq![
            ActionView::Send { text: echo_text(text) },
        ],
        state_after(state, command_actions(Ok(CommandView::Echo(text)))) == state,
{
    let actions = command_actions(Ok(CommandView::Echo(text)));
    assert(actions.drop_last() =~= Seq::empty());
    assert(state_after(state, actions.drop_last()) == state);
}

/// A message that is no command changes nothing. Whatever is remembered, the bot answers
/// such a message with the reason and leaves what is remembered as it is; the same holds
/// of `/help`.
pub proof fn lemma_only_a_poll_changes_state(
    outcome: Result<CommandView, ParseErrorView>,
    state: StateView,
)
    requires
        !(outcome matches Ok(CommandView::PollDate { .. })),
    ensures
        command_actions(outcome).len() == 1,
        command_actions(outcome)[0] is Send,
        outcome matches Err(error) ==> command_actions(outcome)[0] == (ActionView::Send {
            text: parse_error_message(error),
        }),
        state_after(state, command_actions(outcome)) == state,
{
    let actions = command_actions(outcome);
    assert(actions.drop_last() =~= Seq::empty());
    assert(state_after(state, actions.drop_last()) == state);
}

/// A poll without the separator between its dates is refused and changes nothing. On a
/// `/polldate` whose arguments do not hold the separator, whatever is remembered and
/// whenever it comes, the bot sends the reason and leaves what is remembered as it is.
pub proof fn lemma_poll_without_separator_changes_nothing(
    text: Seq<char>,
    bot_name: Seq<char>,
    now: Option<MomentView>,
    state: StateView,
)
    requires
        name_of(head_of(text)) == "/polldate"@,
        mention_of(head_of(text)) matches Some(mention) ==> same_ignoring_ascii_case(
            mention,
            bot_name,
        ),
        find_from(arguments_of(text), date_separator(), 0) is None,
    ensures
        parse_view(text, bot_name, now) is Err,
        message_actions(Some(text), bot_name, now) == Some(
            seq![
                ActionView::Send {
                    text: parse_error_message(parse_view(text, bot_name, now)->Err_0),
                },
            ],
        ),
        state_after(state, message_actions(Some(text), bot_name, now)->0) == state,
{
    reveal_strlit("/polldate");
    reveal_strlit("/echo");
    assert("/polldate"@ != "/echo"@) by {
        assert("/polldate"@[1] == 'p');
        assert("/echo"@[1] == 'e');
    }
    lemma_dates_need_separator(arguments_of(text), now);
    lemma_only_a_poll_changes_state(parse_view(text, bot_name, now), state);
    let actions = command_actions(parse_view(text, bot_name, now));
    assert(actions =~= seq![
        ActionView::Send { text: parse_error_message(parse_view(text, bot_name, now)->Err_0) },
    ]);
}

} // verus!
