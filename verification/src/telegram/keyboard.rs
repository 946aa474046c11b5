//! The keyboard of a poll: one button for each day, in the order of the days.
use crate::telegram::moment::{
    days_between, formatted, key_pattern, label_pattern, Moment, MomentView, DAY, MAX_TIMESTAMP,
};
use crate::telegram::selection::Selection;
use vstd::prelude::*;
use vstd::string::*;

verus! {

/// A button that shows `text` and reports `data` when it is tapped.
#[derive(Debug)]
pub struct Button {
    pub text: String,
    pub data: String,
}

/// `Button` as plain values, for contracts.
pub struct ButtonView {
    pub text: Seq<char>,
    pub data: Seq<char>,
}

impl View for Button {
    type V = ButtonView;

    open spec fn view(&self) -> ButtonView {
        ButtonView { text: self.text@, data: self.data@ }
    }
}

impl DeepView for Button {
    type V = ButtonView;

    open spec fn deep_view(&self) -> ButtonView {
        self@
    }
}

/// Rows of buttons, from the top.
#[derive(Debug)]
pub struct Keyboard {
    pub rows: Vec<Vec<Button>>,
}

impl View for Keyboard {
    type V = Seq<Seq<ButtonView>>;

    open spec fn view(&self) -> Seq<Seq<ButtonView>> {
        self.rows.deep_view()
    }
}

impl DeepView for Keyboard {
    type V = Seq<Seq<ButtonView>>;

    open spec fn deep_view(&self) -> Seq<Seq<ButtonView>> {
        self@
    }
}

/// The mark behind the label of a day that is chosen.
pub open spec fn chosen_mark() -> Seq<char> {
    " ✅"@
}

/// The button of a day with the label `label` and the key `key`: it reports the key, and
/// shows the label, with the mark behind it where the day is chosen.
pub open spec fn button_view(label: Seq<char>, key: Seq<char>, chosen: bool) -> ButtonView {
    ButtonView {
        text: if chosen {
            label + chosen_mark()
        } else {
            label
        },
        data: key,
    }
}

/// The button of the day that lies `day` days after `start`.
pub open spec fn day_button(start: MomentView, day: int, selected: Set<Seq<char>>) -> ButtonView {
    let at = start.timestamp + day * DAY;
    let key = formatted(at, start.offset, key_pattern());
    button_view(formatted(at, start.offset, label_pattern()), key, selected.contains(key))
}

/// The keyboard of the poll from `start` to `end`: a row with one button for each whole
/// day between them, the day of `start` first and the day of `end` left out.
pub open spec fn keyboard_view(start: MomentView, end: MomentView, selected: Set<Seq<char>>) -> Seq<
    Seq<ButtonView>,
> {
    Seq::new(
        days_between(start.timestamp, end.timestamp) as nat,
        |day: int| seq![day_button(start, day, selected)],
    )
}

/// The button of a day with the label `label` and the key `key`.
pub fn button(label: String, key: String, chosen: bool) -> (button: Button)
    ensures
        button@ == button_view(label@, key@, chosen),
{
    if chosen {
        Button { text: label.concat(" ✅"), data: key }
    } else {
        Button { text: label, data: key }
    }
}

/// The keyboard of the poll from `start` to `end` in which the days in `selected` are
/// chosen.
pub fn make_keyboard(start: &Moment, end: &Moment, selected: &Selection) -> (keyboard: Keyboard)
    ensures
        keyboard@ == keyboard_view(start@, end@, selected@),
{
    let days = start.days_until(end);
    let mut rows: Vec<Vec<Button>> = Vec::new();
    let mut day: i64 = 0;
    while day < days
        invariant
            0 <= day <= days,
            days == days_between(start@.timestamp, end@.timestamp),
            start@.timestamp + days * DAY <= MAX_TIMESTAMP,
            rows.len() == day,
            forall|d: int| 0 <= d < day ==> #[trigger] rows.deep_view()[d] == seq![
                day_button(start@, d, selected@),
            ],
        decreases days - day,
    {
        assert(day * DAY <= days * DAY) by (nonlinear_arith)
            requires
                0 <= day <= days,
                DAY == 86400,
        ;
        let at = start.later(day);
        let key = at.day_key();
        let chosen = selected.contains(key.as_str());
        let row = vec![button(at.day_label(), key, chosen)];
        let ghost before = rows.deep_view();
        rows.push(row);
        proof {
            assert(row.deep_view() =~= seq![day_button(start@, day as int, selected@)]);
            assert(rows.deep_view() =~= before.push(row.deep_view()));
            assert forall|d: int| 0 <= d < day + 1 implies #[trigger] rows.deep_view()[d]
                == seq![day_button(start@, d, selected@)] by {
                if d < day {
                    assert(before[d] == seq![day_button(start@, d, selected@)]);
                }
            }
        }
        day = day + 1;
    }
    let keyboard = Keyboard { rows };
    assert(keyboard@ =~= keyboard_view(start@, end@, selected@));
    keyboard
}

} // verus!
