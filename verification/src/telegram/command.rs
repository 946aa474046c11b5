//! The commands of the bot and how a message is read as one.
use crate::telegram::moment::{moment_view, parsed_moment, Moment, MomentView};
use crate::text::{
    chars_of, eq_ignore_ascii_case, find, find_from, lemma_find_from_first, piece, piece_end,
    same_ignoring_ascii_case, text_eq,
};
use vstd::prelude::*;
use vstd::string::*;

verus! {

/// A command of the bot.
#[derive(Debug)]
pub enum Command {
    /// `/echo`: say the text back.
    Echo(String),
    /// `/polldate`: poll for the days from `start` up to `end`.
    PollDate { start: Moment, end: Moment },
    /// `/help`: list the commands.
    Help,
}

/// `Command` as plain values, for contracts.
pub enum CommandView {
    Echo(Seq<char>),
    PollDate { start: MomentView, end: MomentView },
    Help,
}

impl View for Command {
    type V = CommandView;

    open spec fn view(&self) -> CommandView {
        match self {
            Command::Echo(text) => CommandView::Echo(text@),
            Command::PollDate { start, end } => CommandView::PollDate { start: start@, end: end@ },
            Command::Help => CommandView::Help,
        }
    }
}

/// Why a message is no command.
#[derive(Debug)]
pub enum ParseError {
    /// The command is addressed to a bot of another name.
    WrongBotName(String),
    /// No command has this name.
    UnknownCommand(String),
    /// The arguments of the command are not what it takes; the text says why.
    Custom(String),
}

/// `ParseError` as plain values, for contracts.
pub enum ParseErrorView {
    WrongBotName(Seq<char>),
    UnknownCommand(Seq<char>),
    Custom(Seq<char>),
}

impl View for ParseError {
    type V = ParseErrorView;

    open spec fn view(&self) -> ParseErrorView {
        match self {
            ParseError::WrongBotName(name) => ParseErrorView::WrongBotName(name@),
            ParseError::UnknownCommand(name) => ParseErrorView::UnknownCommand(name@),
            ParseError::Custom(text) => ParseErrorView::Custom(text@),
        }
    }
}

/// The text that tells a user of `error`.
pub open spec fn parse_error_message(error: ParseErrorView) -> Seq<char> {
    match error {
        ParseErrorView::WrongBotName(name) => "Wrong bot name: "@ + name,
        ParseErrorView::UnknownCommand(name) => "Unknown command: "@ + name,
        ParseErrorView::Custom(text) => text,
    }
}

impl ParseError {
    /// The text that tells a user of this error.
    pub fn message(&self) -> (text: String)
        ensures
            text@ == parse_error_message(self@),
    {
        match self {
            ParseError::WrongBotName(name) => String::from_str("Wrong bot name: ").concat(
                name.as_str(),
            ),
            ParseError::UnknownCommand(name) => String::from_str("Unknown command: ").concat(
                name.as_str(),
            ),
            ParseError::Custom(text) => text.clone(),
        }
    }
}

/// What separates the two dates of a poll.
pub open spec fn date_separator() -> Seq<char> {
    " to "@
}

/// The moment that `text` names at `now`, or why it names none. Without a clock no text
/// names a moment.
pub open spec fn read_date(text: Seq<char>, now: Option<MomentView>) -> Result<
    MomentView,
    Seq<char>,
> {
    match now {
        Some(now) => parsed_moment(text, now),
        None => Err("the clock is out of range"@),
    }
}

/// Why the date on one side of a poll was not read: which `side`, the parser's `reason`,
/// and the text as it came.
pub open spec fn unreadable(side: Seq<char>, reason: Seq<char>, text: Seq<char>) -> ParseErrorView {
    ParseErrorView::Custom(
        "unable to parse "@ + side + " date: "@ + reason + " '"@ + text + "'"@,
    )
}

/// The two dates of a poll, read at `now` out of `text`: the start is what stands before
/// the first separator, the end what stands between the first and the second.
///
/// The start is read first, so a start that is not read is told of even where the
/// separator is missing as well.
pub open spec fn split_dates_view(text: Seq<char>, now: Option<MomentView>) -> Result<
    (MomentView, MomentView),
    ParseErrorView,
> {
    let first_end = piece_end(text, date_separator(), 0);
    let first = text.subrange(0, first_end);
    match read_date(first, now) {
        Err(reason) => Err(unreadable("start"@, reason, first)),
        Ok(start) => if find_from(text, date_separator(), 0) is None {
            Err(ParseErrorView::Custom("dates must be separated by 'to'"@))
        } else {
            let from = first_end + date_separator().len();
            let second = text.subrange(from, piece_end(text, date_separator(), from));
            match read_date(second, now) {
                Err(reason) => Err(unreadable("end"@, reason, second)),
                Ok(end) => Ok((start, end)),
            }
        },
    }
}

/// The first word of a message: what stands before the first space.
pub open spec fn head_of(text: Seq<char>) -> Seq<char> {
    text.subrange(0, piece_end(text, " "@, 0))
}

/// The arguments of a message: what stands behind the first space.
pub open spec fn arguments_of(text: Seq<char>) -> Seq<char> {
    let end = piece_end(text, " "@, 0);
    if end < text.len() {
        text.subrange(end + 1, text.len() as int)
    } else {
        Seq::empty()
    }
}

/// The name of the command in the first word `head`: what stands before the first `@`.
pub open spec fn name_of(head: Seq<char>) -> Seq<char> {
    head.subrange(0, piece_end(head, "@"@, 0))
}

/// The bot that the first word `head` addresses: what stands between its first `@` and
/// its second, if it holds an `@`.
pub open spec fn mention_of(head: Seq<char>) -> Option<Seq<char>> {
    let end = piece_end(head, "@"@, 0);
    if end < head.len() {
        Some(head.subrange(end + 1, piece_end(head, "@"@, end + 1)))
    } else {
        None
    }
}

/// The command that `text` is, for the bot named `bot_name`, at `now`.
///
/// A command that addresses another bot is refused before its name is looked at. The
/// name of the bot is compared without regard to the case of ASCII letters, the name of
/// the command as it stands.
pub open spec fn parse_view(text: Seq<char>, bot_name: Seq<char>, now: Option<MomentView>) -> Result<
    CommandView,
    ParseErrorView,
> {
    let head = head_of(text);
    let name = name_of(head);
    if mention_of(head) is Some && !same_ignoring_ascii_case(mention_of(head)->0, bot_name) {
        Err(ParseErrorView::WrongBotName(mention_of(head)->0))
    } else if name == "/echo"@ {
        Ok(CommandView::Echo(arguments_of(text)))
    } else if name == "/polldate"@ {
        match split_dates_view(arguments_of(text), now) {
            Ok((start, end)) => Ok(CommandView::PollDate { start, end }),
            Err(error) => Err(error),
        }
    } else if name == "/help"@ {
        Ok(CommandView::Help)
    } else {
        Err(ParseErrorView::UnknownCommand(name))
    }
}

/// What a reading of two dates gave, as plain values.
pub open spec fn dates_view(r: Result<(Moment, Moment), ParseError>) -> Result<
    (MomentView, MomentView),
    ParseErrorView,
> {
    match r {
        Ok((start, end)) => Ok((start@, end@)),
        Err(error) => Err(error@),
    }
}

/// What a reading of a command gave, as plain values.
pub open spec fn command_view(r: Result<Command, ParseError>) -> Result<CommandView, ParseErrorView> {
    match r {
        Ok(command) => Ok(command@),
        Err(error) => Err(error@),
    }
}

fn read(text: &str, now: &Option<Moment>) -> (r: Result<Moment, String>)
    ensures
        moment_view(r) == read_date(text@, now.deep_view()),
{
    match now {
        Some(now) => now.parse(text),
        None => Err(String::from_str("the clock is out of range")),
    }
}

/// Why the date on one side of a poll was not read.
pub fn unreadable_date(side: &str, reason: &str, text: &str) -> (error: ParseError)
    ensures
        error@ == unreadable(side@, reason@, text@),
{
    let mut message = String::from_str("unable to parse ");
    message.append(side);
    message.append(" date: ");
    message.append(reason);
    message.append(" '");
    message.append(text);
    message.append("'");
    ParseError::Custom(message)
}

/// Where the piece of `chars` that starts at `from` ends, and whether a separator
/// follows it.
fn end_of_piece(chars: &Vec<char>, separator: &Vec<char>, from: usize) -> (r: (usize, bool))
    requires
        from <= chars.len(),
    ensures
        r.0 == piece_end(chars@, separator@, from as int),
        r.1 == find_from(chars@, separator@, from as int) is Some,
        from <= r.0 <= chars.len(),
        r.1 ==> r.0 + separator.len() <= chars.len(),
{
    proof {
        lemma_find_from_first(chars@, separator@, from as int);
    }
    match find(chars, separator, from) {
        Some(i) => (i, true),
        None => (chars.len(), false),
    }
}

/// The two dates of a poll, read at `now` out of `text`.
pub fn split_dates_at(text: &str, now: &Option<Moment>) -> (r: Result<(Moment, Moment), ParseError>)
    ensures
        dates_view(r) == split_dates_view(text@, now.deep_view()),
{
    let chars = chars_of(text);
    let separator = chars_of(" to ");
    let (first_end, separated) = end_of_piece(&chars, &separator, 0);
    let first = piece(text, 0, first_end);
    let start = match read(first.as_str(), now) {
        Ok(start) => start,
        Err(reason) => {
            return Err(unreadable_date("start", reason.as_str(), first.as_str()));
        },
    };
    if !separated {
        return Err(ParseError::Custom(String::from_str("dates must be separated by 'to'")));
    }
    let from = first_end + separator.len();
    let (second_end, _) = end_of_piece(&chars, &separator, from);
    let second = piece(text, from, second_end);
    match read(second.as_str(), now) {
        Ok(end) => Ok((start, end)),
        Err(reason) => Err(unreadable_date("end", reason.as_str(), second.as_str())),
    }
}

/// The two dates of a poll, read now out of `text`. The moment at which the dates are
/// read is that of the local clock, which is read once for both dates; what is returned
/// is what `split_dates_view` says for that moment, or for no moment where the clock
/// shows none.
pub fn split_dates(text: String) -> (r: Result<(Moment, Moment), ParseError>)
    ensures
        exists|now: Option<MomentView>| dates_view(r) == #[trigger] split_dates_view(text@, now),
{
    let now = Moment::now();
    let r = split_dates_at(text.as_str(), &now);
    assert(dates_view(r) == split_dates_view(text@, now.deep_view()));
    r
}

/// Two dates need a separator. A text that does not hold the separator gives no dates,
/// whenever it is read: it fails on its start, or for want of the separator.
pub proof fn lemma_dates_need_separator(text: Seq<char>, now: Option<MomentView>)
    requires
        find_from(text, date_separator(), 0) is None,
    ensures
        split_dates_view(text, now) is Err,
        read_date(text, now) is Ok ==> split_dates_view(text, now) == Err::<
            (MomentView, MomentView),
            ParseErrorView,
        >(ParseErrorView::Custom("dates must be separated by 'to'"@)),
{
    assert(text.subrange(0, text.len() as int) =~= text);
}

/// The list of the commands, as `/help` shows it.
pub open spec fn descriptions_view() -> Seq<char> {
    "These commands are supported:\n\n/echo — echo the text\n/polldate — create a poll for dates between start and end\n/help — display this text"@
}

impl Command {
    /// The list of the commands, as `/help` shows it.
    pub fn descriptions() -> (text: String)
        ensures
            text@ == descriptions_view(),
    {
        String::from_str(
            "These commands are supported:\n\n/echo — echo the text\n/polldate — create a poll for dates between start and end\n/help — display this text",
        )
    }

    /// The command that `text` is, for the bot named `bot_name`, at `now`.
    pub fn parse_at(text: &str, bot_name: &str, now: &Option<Moment>) -> (r: Result<
        Command,
        ParseError,
    >)
        ensures
            command_view(r) == parse_view(text@, bot_name@, now.deep_view()),
    {
        proof {
            reveal_strlit(" ");
            reveal_strlit("@");
        }
        let chars = chars_of(text);
        let space = chars_of(" ");
        let at = chars_of("@");
        let (head_end, _) = end_of_piece(&chars, &space, 0);
        let head = piece(text, 0, head_end);
        let arguments = if head_end < chars.len() {
            piece(text, head_end + 1, chars.len())
        } else {
            String::new()
        };
        let head_chars = chars_of(head.as_str());
        let (name_end, addressed) = end_of_piece(&head_chars, &at, 0);
        let name = piece(head.as_str(), 0, name_end);
        if addressed {
            let (mention_end, _) = end_of_piece(&head_chars, &at, name_end + 1);
            let mention = piece(head.as_str(), name_end + 1, mention_end);
            if !eq_ignore_ascii_case(&chars_of(mention.as_str()), &chars_of(bot_name)) {
                return Err(ParseError::WrongBotName(mention));
            }
        }
        if text_eq(name.as_str(), "/echo") {
            Ok(Command::Echo(arguments))
        } else if text_eq(name.as_str(), "/polldate") {
            match split_dates_at(arguments.as_str(), now) {
                Ok((start, end)) => Ok(Command::PollDate { start, end }),
                Err(error) => Err(error),
            }
        } else if text_eq(name.as_str(), "/help") {
            Ok(Command::Help)
        } else {
            Err(ParseError::UnknownCommand(name))
        }
    }

    /// The command that `text` is, for the bot named `bot_name`, now. The moment at which
    /// dates are read is that of the local clock, which is read once for the command; what
    /// is returned is what `parse_view` says for that moment, or for no moment where the
    /// clock shows none.
    pub fn parse(text: &str, bot_name: &str) -> (r: Result<Command, ParseError>)
        ensures
            exists|now: Option<MomentView>|
                command_view(r) == #[trigger] parse_view(text@, bot_name@, now),
    {
        let now = Moment::now();
        let r = Command::parse_at(text, bot_name, &now);
        assert(command_view(r) == parse_view(text@, bot_name@, now.deep_view()));
        r
    }
}

} // verus!
