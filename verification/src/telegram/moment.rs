//! Points in time as the bot reads, compares and writes them: seconds since the Unix
//! epoch with the offset of the wall clock that shows them.
use vstd::prelude::*;
use vstd::string::*;

verus! {

/// The latest second a `Moment` can stand for, and the negative of the earliest.
pub const MAX_TIMESTAMP: i64 = 4_000_000_000_000;

/// Seconds in a day.
pub const DAY: i64 = 86400;

/// The longest text that is read as a date, in characters.
pub const MAX_DATE_TEXT: usize = 4_000_000_000;

/// The greatest number that may stand in a date.
pub const MAX_NUMBER: u32 = 999_999;

/// A point in time: `timestamp` seconds after the Unix epoch, shown by a wall clock that
/// is `offset` seconds ahead of UTC.
///
/// A moment counts whole seconds and keeps one offset: days are counted and named on the
/// clock of the moment they start from, whatever the time zone of the machine does in
/// between. Where that zone changes its offset within a poll, a day near midnight can
/// bear the name of its neighbour, and a span within a second of a whole day can count
/// one day more or less than on a clock that follows the zone.
#[derive(Clone, Copy, Debug)]
pub struct Moment {
    timestamp: i64,
    offset: i32,
}

/// `Moment` as plain values, for contracts.
pub struct MomentView {
    pub timestamp: int,
    pub offset: int,
}

/// Whether a moment with these numbers exists: the offset is less than a day, and the
/// second lies within `MAX_TIMESTAMP` of the epoch.
pub open spec fn in_range(timestamp: int, offset: int) -> bool {
    &&& -MAX_TIMESTAMP <= timestamp <= MAX_TIMESTAMP
    &&& -DAY < offset < DAY
}

/// The moment that a clock shows which reads `timestamp` seconds after the epoch and is
/// `offset` seconds ahead of UTC: the moment with these numbers, if one exists.
pub open spec fn moment_shown(timestamp: int, offset: int) -> Option<MomentView> {
    if in_range(timestamp, offset) {
        Some(MomentView { timestamp, offset })
    } else {
        None
    }
}

impl View for Moment {
    type V = MomentView;

    closed spec fn view(&self) -> MomentView {
        MomentView { timestamp: self.timestamp as int, offset: self.offset as int }
    }
}

impl DeepView for Moment {
    type V = MomentView;

    open spec fn deep_view(&self) -> MomentView {
        self@
    }
}

/// What `chrono` writes for the second `timestamp` on a clock `offset` seconds ahead of
/// UTC when it formats by the strftime pattern `pattern`.
pub uninterp spec fn formatted(timestamp: int, offset: int, pattern: Seq<char>) -> Seq<char>;

/// What `chrono` writes for the second `timestamp` on a clock `offset` seconds ahead of
/// UTC when it displays date, time and offset.
pub uninterp spec fn displayed(timestamp: int, offset: int) -> Seq<char>;

/// What `chrono_english` reads out of `text` in the British dialect at the second `now`
/// on a clock `offset` seconds ahead of UTC: the second that the text names, or why it
/// names none.
pub uninterp spec fn english_date(text: Seq<char>, now: int, offset: int) -> Result<int, Seq<char>>;

/// The pattern of a day's key: year, month and day as in ISO 8601.
pub open spec fn key_pattern() -> Seq<char> {
    "%Y-%m-%d"@
}

/// The pattern of a day's label: weekday, day of the month and month, as in `Mon 01 Jan`.
pub open spec fn label_pattern() -> Seq<char> {
    "%a %d %b"@
}

/// Calls `chrono::DateTime::format` on the moment and renders what it returns.
/// Trusted: the text is a function of the three arguments alone, as `chrono`'s source
/// shows for a fixed offset and the default (English) names. The two patterns admitted
/// hold only specifiers that `chrono` knows, so that rendering does not fail, and the
/// moment lies within the range of dates that `chrono` represents.
#[verifier::external_body]
fn format_moment(timestamp: i64, offset: i32, pattern: &str) -> (text: String)
    requires
        in_range(timestamp as int, offset as int),
        pattern@ == key_pattern() || pattern@ == label_pattern(),
    ensures
        text@ == formatted(timestamp as int, offset as int, pattern@),
{
    let zone = chrono::FixedOffset::east_opt(offset).unwrap();
    let at = chrono::DateTime::from_timestamp(timestamp, 0).unwrap().with_timezone(&zone);
    at.format(pattern).to_string()
}

/// Renders the moment with the `Display` impl of `chrono::DateTime`.
/// Trusted: the text is a function of the two arguments alone, as `chrono`'s source
/// shows for a fixed offset, and the moment lies within the range of dates that `chrono`
/// represents.
#[verifier::external_body]
fn display_moment(timestamp: i64, offset: i32) -> (text: String)
    requires
        in_range(timestamp as int, offset as int),
    ensures
        text@ == displayed(timestamp as int, offset as int),
{
    let zone = chrono::FixedOffset::east_opt(offset).unwrap();
    let at = chrono::DateTime::from_timestamp(timestamp, 0).unwrap().with_timezone(&zone);
    at.to_string()
}

/// Calls `chrono::Local::now` and takes the second and the offset of the local clock.
/// Trusted: the offset is less than a day, as every offset is that `chrono` makes. Nothing
/// else is stated of the values: they are the machine's clock and time zone. `chrono`
/// panics where the system clock stands before 1970; no argument decides that.
#[verifier::external_body]
fn local_clock() -> (reading: (i64, i32))
    ensures
        -DAY < reading.1 < DAY,
{
    let now = chrono::Local::now();
    (now.timestamp(), now.offset().local_minus_utc())
}

/// Whether `c` is one of the digits `0` to `9`.
pub open spec fn is_digit(c: char) -> bool {
    '0' <= c <= '9'
}

/// The number that the digits write which stand in a row right before position `i` of
/// `text`; zeros in front do not count.
pub open spec fn number_before(text: Seq<char>, i: int) -> int
    decreases i,
{
    if i <= 0 || i > text.len() {
        0
    } else if is_digit(text[i - 1]) {
        number_before(text, i - 1) * 10 + (text[i - 1] as u32 - 48)
    } else {
        0
    }
}

/// Whether `c` is one of the space characters beyond ASCII: the no-break space, the
/// Ogham space mark, the spaces of fixed width, the line and the paragraph separator, the
/// narrow no-break space, the medium mathematical space or the ideographic space.
pub open spec fn is_wide_space(c: char) -> bool {
    let n = c as u32;
    ||| n == 0xA0
    ||| n == 0x1680
    ||| 0x2000 <= n <= 0x200A
    ||| n == 0x2028
    ||| n == 0x2029
    ||| n == 0x202F
    ||| n == 0x205F
    ||| n == 0x3000
}

/// Whether the character at position `i` may stand there in a date: it is an ASCII
/// character or a space beyond ASCII, it does not make a number greater than
/// `MAX_NUMBER`, and if it is a full stop, a digit or nothing follows it.
pub open spec fn position_supported(text: Seq<char>, i: int) -> bool {
    &&& (text[i] as u32) < 128 || is_wide_space(text[i])
    &&& number_before(text, i + 1) <= MAX_NUMBER
    &&& text[i] == '.' && i + 1 < text.len() ==> is_digit(text[i + 1])
}

/// Whether `text` is read as a date at all: it is no longer than `MAX_DATE_TEXT` and
/// every character of it may stand where it stands.
pub open spec fn supported_date_text(text: Seq<char>) -> bool {
    &&& text.len() <= MAX_DATE_TEXT
    &&& forall|i: int| 0 <= i < text.len() ==> #[trigger] position_supported(text, i)
}

/// Calls `chrono_english::parse_date_string` with the British dialect, relative to the
/// moment given, and takes the second of the date that it returns, or the `Debug`
/// rendering of its error.
/// Trusted: the outcome is a function of the three arguments alone, as the source shows
/// for a fixed offset. `requires` leaves out the texts on which the parser can panic: it
/// slices words by bytes (so the text is ASCII but for spaces, which stand in no word),
/// unwraps the sum of the moment and a
/// number of days or seconds and adds and multiplies numbers without a check (so no
/// number is greater than `MAX_NUMBER`, wherever it stands, and the moment lies well
/// within the range of `chrono`), unwraps the fraction of a second as a float (so a digit
/// or nothing follows a full stop), and counts lines in 32 bits (so the text is no longer
/// than `MAX_DATE_TEXT`). The parser writes to the standard error stream on some texts.
#[verifier::external_body]
fn parse_english_date(text: &str, now: i64, offset: i32) -> (r: Result<i64, String>)
    requires
        supported_date_text(text@),
        in_range(now as int, offset as int),
    ensures
        reading_view(r) == english_date(text@, now as int, offset as int),
{
    let zone = chrono::FixedOffset::east_opt(offset).unwrap();
    let base = chrono::DateTime::from_timestamp(now, 0).unwrap().with_timezone(&zone);
    match chrono_english::parse_date_string(text, base, chrono_english::Dialect::Uk) {
        Ok(at) => Ok(at.timestamp()),
        Err(error) => Err(format!("{error:?}")),
    }
}

/// The moment on the clock `offset` seconds ahead of UTC that the parser's `reading`
/// gives: the second that it read, if a moment stands for it, or why there is none.
pub open spec fn moment_read(reading: Result<int, Seq<char>>, offset: int) -> Result<
    MomentView,
    Seq<char>,
> {
    match reading {
        Err(reason) => Err(reason),
        Ok(at) => if in_range(at, offset) {
            Ok(MomentView { timestamp: at, offset })
        } else {
            Err("date out of range"@)
        },
    }
}

/// The moment that `text` names when it is read at `now`, on the clock of `now`; or why
/// it names none: the text is not read as a date at all, the parser refuses it, or the
/// date lies outside the range of moments.
pub open spec fn parsed_moment(text: Seq<char>, now: MomentView) -> Result<MomentView, Seq<char>> {
    if !supported_date_text(text) {
        Err("unsupported date text"@)
    } else {
        moment_read(english_date(text, now.timestamp, now.offset), now.offset)
    }
}

/// A parser's reading as plain values.
pub open spec fn reading_view(reading: Result<i64, String>) -> Result<int, Seq<char>> {
    match reading {
        Ok(at) => Ok(at as int),
        Err(reason) => Err(reason@),
    }
}

/// A moment or the reason why there is none, as plain values.
pub open spec fn moment_view(r: Result<Moment, String>) -> Result<MomentView, Seq<char>> {
    match r {
        Ok(moment) => Ok(moment@),
        Err(reason) => Err(reason@),
    }
}

/// Whole days from the second `start` to the second `end`; none where `end` is not later.
pub open spec fn days_between(start: int, end: int) -> int {
    if end <= start {
        0
    } else {
        (end - start) / (DAY as int)
    }
}

fn wide_space(c: char) -> (r: bool)
    ensures
        r == is_wide_space(c),
{
    let n: u32 = c as u32;
    n == 0xA0 || n == 0x1680 || (0x2000 <= n && n <= 0x200A) || n == 0x2028 || n == 0x2029 || n
        == 0x202F || n == 0x205F || n == 0x3000
}

/// Whether `text` is read as a date at all.
pub fn date_text_supported(text: &str) -> (r: bool)
    ensures
        r == supported_date_text(text@),
{
    let chars = crate::text::chars_of(text);
    if chars.len() > MAX_DATE_TEXT {
        return false;
    }
    let mut number: u32 = 0;
    let mut i: usize = 0;
    while i < chars.len()
        invariant
            i <= chars.len(),
            chars@ == text@,
            chars.len() <= MAX_DATE_TEXT,
            number == number_before(text@, i as int),
            number <= MAX_NUMBER,
            forall|k: int| 0 <= k < i ==> #[trigger] position_supported(text@, k),
        decreases chars.len() - i,
    {
        let c = chars[i];
        let digit = '0' <= c && c <= '9';
        let next_number: u32 = if digit {
            number * 10 + (c as u32 - 48)
        } else {
            0
        };
        assert(next_number == number_before(text@, i + 1));
        let stop_ok = c != '.' || i + 1 >= chars.len() || ('0' <= chars[i + 1] && chars[i + 1]
            <= '9');
        if !((c as u32) < 128 || wide_space(c)) || next_number > MAX_NUMBER || !stop_ok {
            assert(!position_supported(text@, i as int));
            return false;
        }
        number = next_number;
        i = i + 1;
    }
    true
}

impl Moment {
    #[verifier::type_invariant]
    spec fn well_formed(self) -> bool {
        in_range(self.timestamp as int, self.offset as int)
    }

    /// The moment `timestamp` seconds after the epoch on a clock `offset` seconds ahead
    /// of UTC, if there is one.
    pub fn new(timestamp: i64, offset: i32) -> (moment: Option<Moment>)
        ensures
            match moment {
                Some(m) => in_range(timestamp as int, offset as int) && m@ == (MomentView {
                    timestamp: timestamp as int,
                    offset: offset as int,
                }),
                None => !in_range(timestamp as int, offset as int),
            },
    {
        if -MAX_TIMESTAMP <= timestamp && timestamp <= MAX_TIMESTAMP && -DAY < offset as i64
            && (offset as i64) < DAY {
            Some(Moment { timestamp, offset })
        } else {
            None
        }
    }

    /// The moment that the local clock shows, if it shows one within the range of moments.
    /// What the clock reads is open; the result is the moment of that reading, with its
    /// second and its offset, or none where the reading lies outside the range.
    pub fn now() -> (moment: Option<Moment>)
        ensures
            exists|timestamp: int, offset: int|
                {
                    &&& -DAY < offset < DAY
                    &&& moment.deep_view() == #[trigger] moment_shown(timestamp, offset)
                },
    {
        let (timestamp, offset) = local_clock();
        let moment = Moment::new(timestamp, offset);
        assert(moment.deep_view() == moment_shown(timestamp as int, offset as int));
        moment
    }

    /// Seconds since the Unix epoch.
    pub fn timestamp(&self) -> (timestamp: i64)
        ensures
            timestamp == self@.timestamp,
            in_range(self@.timestamp, self@.offset),
    {
        proof {
            use_type_invariant(self);
        }
        self.timestamp
    }

    /// Seconds that the moment's clock is ahead of UTC.
    pub fn offset(&self) -> (offset: i32)
        ensures
            offset == self@.offset,
            in_range(self@.timestamp, self@.offset),
    {
        proof {
            use_type_invariant(self);
        }
        self.offset
    }

    /// Whole days from this moment to `end`; none where `end` is not later.
    pub fn days_until(&self, end: &Moment) -> (days: i64)
        ensures
            days == days_between(self@.timestamp, end@.timestamp),
            0 <= days,
            self@.timestamp + days * DAY <= MAX_TIMESTAMP,
    {
        proof {
            use_type_invariant(self);
            use_type_invariant(end);
        }
        if end.timestamp <= self.timestamp {
            0
        } else {
            let span = end.timestamp - self.timestamp;
            let days = span / DAY;
            assert(days * 86400 <= span) by (nonlinear_arith)
                requires
                    days == span / 86400,
                    span > 0,
            ;
            days
        }
    }

    /// The moment `days` days later on the same clock, if there is one.
    pub fn plus_days(&self, days: i64) -> (later: Option<Moment>)
        ensures
            match later {
                Some(m) => in_range(self@.timestamp + days * DAY, self@.offset) && m@ == (
                MomentView { timestamp: self@.timestamp + days * DAY, offset: self@.offset }),
                None => !in_range(self@.timestamp + days * DAY, self@.offset),
            },
    {
        proof {
            use_type_invariant(self);
        }
        if days < -100_000_000 || days > 100_000_000 {
            assert(!in_range(self@.timestamp + days * DAY, self@.offset)) by (nonlinear_arith)
                requires
                    days < -100_000_000 || days > 100_000_000,
                    -4_000_000_000_000 <= self@.timestamp <= 4_000_000_000_000,
                    DAY == 86400,
                    MAX_TIMESTAMP == 4_000_000_000_000,
            ;
            return None;
        }
        Moment::new(self.timestamp + days * DAY, self.offset)
    }

    /// The moment `days` days later on the same clock, where that is known to exist.
    pub(crate) fn later(&self, days: i64) -> (later: Moment)
        requires
            0 <= days,
            self@.timestamp + days * DAY <= MAX_TIMESTAMP,
        ensures
            later@ == (MomentView {
                timestamp: self@.timestamp + days * DAY,
                offset: self@.offset,
            }),
    {
        proof {
            use_type_invariant(self);
            assert(0 <= days * DAY) by (nonlinear_arith)
                requires
                    0 <= days,
                    DAY == 86400,
            ;
        }
        Moment { timestamp: self.timestamp + days * DAY, offset: self.offset }
    }

    /// The key of the moment's day: its date as in ISO 8601, such as `2024-01-31`.
    pub fn day_key(&self) -> (key: String)
        ensures
            key@ == formatted(self@.timestamp, self@.offset, key_pattern()),
    {
        proof {
            use_type_invariant(self);
        }
        format_moment(self.timestamp, self.offset, "%Y-%m-%d")
    }

    /// The label of the moment's day: weekday, day of the month and month, such as
    /// `Wed 31 Jan`.
    pub fn day_label(&self) -> (label: String)
        ensures
            label@ == formatted(self@.timestamp, self@.offset, label_pattern()),
    {
        proof {
            use_type_invariant(self);
        }
        format_moment(self.timestamp, self.offset, "%a %d %b")
    }

    /// Date, time and offset of the moment, such as `2024-01-31 00:00:00 +01:00`.
    pub fn to_text(&self) -> (text: String)
        ensures
            text@ == displayed(self@.timestamp, self@.offset),
    {
        proof {
            use_type_invariant(self);
        }
        display_moment(self.timestamp, self.offset)
    }

    /// The moment on the clock `offset` seconds ahead of UTC that the parser's `reading`
    /// gives.
    pub fn from_reading(reading: Result<i64, String>, offset: i32) -> (r: Result<Moment, String>)
        ensures
            moment_view(r) == moment_read(reading_view(reading), offset as int),
    {
        match reading {
            Err(reason) => Err(reason),
            Ok(at) => match Moment::new(at, offset) {
                Some(moment) => Ok(moment),
                None => Err(String::from_str("date out of range")),
            },
        }
    }

    /// The moment that `text` names when it is read now, at this moment, or why it names
    /// none.
    pub fn parse(&self, text: &str) -> (r: Result<Moment, String>)
        ensures
            moment_view(r) == parsed_moment(text@, self@),
    {
        proof {
            use_type_invariant(self);
        }
        if !date_text_supported(text) {
            return Err(String::from_str("unsupported date text"));
        }
        Moment::from_reading(parse_english_date(text, self.timestamp, self.offset), self.offset)
    }
}

} // verus!
