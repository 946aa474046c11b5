//! Statements for the record store: SQL text with placeholders and the values bound to
//! them, built with the query builder of `sqlx`.
use crate::stamp::{is_time, Stamp, StampView};
use vstd::prelude::*;

verus! {

/// A value that is bound to a placeholder of a statement: a text, a whole number, or a
/// point in time.
#[derive(Debug)]
pub enum Bound {
    Text(String),
    Integer(i64),
    Time(Stamp),
}

/// `Bound` as plain values, for contracts.
pub enum BoundView {
    Text(Seq<char>),
    Integer(int),
    Time(StampView),
}

/// What the builder holds for a value that was bound: a text or a whole number. It holds
/// no point in time as such: a point in time is bound as a text.
pub enum Argument {
    Text(Seq<char>),
    Integer(int),
}

/// The text that `sqlx` binds for the date and time in UTC of the instant `nanos`
/// nanoseconds into the second `seconds`: what `chrono` writes for it by the pattern
/// `%F %T%.f`.
pub uninterp spec fn time_text(seconds: int, nanos: int) -> Seq<char>;

/// What the builder holds once `value` was bound.
pub open spec fn argument_of(value: BoundView) -> Argument {
    match value {
        BoundView::Text(text) => Argument::Text(text),
        BoundView::Integer(number) => Argument::Integer(number),
        BoundView::Time(at) => Argument::Text(time_text(at.seconds, at.nanos)),
    }
}

/// A column with the value that a statement sets it to, or compares it with.
#[derive(Debug)]
pub struct Binding {
    pub column: &'static str,
    pub value: Bound,
}

/// `Binding` as plain values, for contracts.
pub struct BindingView {
    pub column: Seq<char>,
    pub value: BoundView,
}

impl View for Bound {
    type V = BoundView;

    open spec fn view(&self) -> BoundView {
        match self {
            Bound::Text(text) => BoundView::Text(text@),
            Bound::Integer(number) => BoundView::Integer(*number as int),
            Bound::Time(at) => BoundView::Time(at@),
        }
    }
}

impl View for Binding {
    type V = BindingView;

    open spec fn view(&self) -> BindingView {
        BindingView { column: self.column@, value: self.value@ }
    }
}

impl DeepView for Binding {
    type V = BindingView;

    open spec fn deep_view(&self) -> BindingView {
        self@
    }
}

/// The binding of a text to `column`, if a text is given.
pub open spec fn text_binding(column: Seq<char>, value: Option<Seq<char>>) -> Seq<BindingView> {
    match value {
        Some(text) => seq![BindingView { column, value: BoundView::Text(text) }],
        None => seq![],
    }
}

/// Appends to `bindings` the binding of `value` to `column`, if a value is given.
pub fn push_text(bindings: &mut Vec<Binding>, column: &'static str, value: &Option<String>)
    ensures
        final(bindings).deep_view() == old(bindings).deep_view() + text_binding(
            column@,
            value.deep_view(),
        ),
        bindable(old(bindings).deep_view()) ==> bindable(final(bindings).deep_view()),
{
    match value {
        Some(text) => {
            let binding = Binding { column, value: Bound::Text(text.clone()) };
            bindings.push(binding);
            assert(bindings.deep_view() =~= old(bindings).deep_view() + seq![binding@]);
        },
        None => {
            assert(bindings.deep_view() =~= old(bindings).deep_view() + Seq::empty());
        },
    }
}

/// The binding that sets the time of the last update to `now`.
pub open spec fn stamp_binding(now: StampView) -> Seq<BindingView> {
    seq![BindingView { column: "updated_at"@, value: BoundView::Time(now) }]
}

/// Appends to `bindings` the binding that sets the time of the last update to `now`.
pub fn push_stamp(bindings: &mut Vec<Binding>, now: Stamp)
    ensures
        final(bindings).deep_view() == old(bindings).deep_view() + stamp_binding(now@),
        bindable(final(bindings).deep_view()) == (bindable(old(bindings).deep_view()) && is_time(
            now@,
        )),
{
    let stamp = Binding { column: "updated_at", value: Bound::Time(now) };
    bindings.push(stamp);
    proof {
        let before = old(bindings).deep_view();
        let after = bindings.deep_view();
        assert(after =~= before + stamp_binding(now@));
        assert(after[before.len() as int].value == BoundView::Time(now@));
        if bindable(before) && is_time(now@) {
            assert forall|i: int| 0 <= i < after.len() implies ((#[trigger] after[i]).value matches BoundView::Time(
                at,
            ) ==> is_time(at)) by {
                if i < before.len() {
                    assert(after[i] == before[i]);
                }
            }
        }
        if bindable(after) {
            assert forall|i: int| 0 <= i < before.len() implies ((#[trigger] before[i]).value matches BoundView::Time(
                at,
            ) ==> is_time(at)) by {
                assert(after[i] == before[i]);
            }
        }
    }
}

/// A statement in the making, ready to be built and run: it holds a
/// `sqlx::QueryBuilder` for SQLite.
/// Trusted: what the builder holds is seen through `statement_text` and
/// `statement_values` only.
#[verifier::external_body]
pub struct Statement {
    builder: sqlx::QueryBuilder<'static, sqlx::Sqlite>,
}

/// The SQL text that the builder of a statement holds.
pub uninterp spec fn statement_text(statement: Statement) -> Seq<char>;

/// The arguments that the builder of a statement holds for the placeholders of its text,
/// in the order of the placeholders.
pub uninterp spec fn statement_values(statement: Statement) -> Seq<Argument>;

/// Whether every point in time among the values of `bindings` can be bound.
pub open spec fn bindable(bindings: Seq<BindingView>) -> bool {
    forall|i: int|
        0 <= i < bindings.len() ==> ((#[trigger] bindings[i]).value matches BoundView::Time(at)
            ==> is_time(at))
}

/// The comparison or assignment that a binding stands for: its column, `=`, and a
/// placeholder.
pub open spec fn bound_column(binding: BindingView) -> Seq<char> {
    binding.column + " = "@ + "?"@
}

/// The list of the bindings, each as `column = ?`, with `separator` between them.
pub open spec fn listed(bindings: Seq<BindingView>, separator: Seq<char>) -> Seq<char>
    decreases bindings.len(),
{
    if bindings.len() == 0 {
        Seq::empty()
    } else if bindings.len() == 1 {
        bound_column(bindings[0])
    } else {
        listed(bindings.drop_last(), separator) + separator + bound_column(bindings.last())
    }
}

/// What the builder holds for the values of the bindings, in their order.
pub open spec fn values_of(bindings: Seq<BindingView>) -> Seq<Argument> {
    Seq::new(bindings.len(), |i: int| argument_of(bindings[i].value))
}

/// Calls `sqlx::QueryBuilder::new` for SQLite with `init` as the text to begin with.
/// Trusted: the builder holds that text and no value, as the source shows.
#[verifier::external_body]
fn begin(init: &str) -> (statement: Statement)
    ensures
        statement_text(statement) == init@,
        statement_values(statement) == Seq::<Argument>::empty(),
{
    Statement { builder: sqlx::QueryBuilder::new(init) }
}

/// Calls `sqlx::QueryBuilder::push`.
/// Trusted: the text grows by `sql` and the values stay, as the source shows. The builder
/// panics once it was built; a statement is not built in this library.
#[verifier::external_body]
fn push(statement: &mut Statement, sql: &str)
    ensures
        statement_text(*final(statement)) == statement_text(*old(statement)) + sql@,
        statement_values(*final(statement)) == statement_values(*old(statement)),
{
    statement.builder.push(sql);
}

/// Calls `sqlx::QueryBuilder::push_bind` with a text.
/// Trusted: the text grows by the placeholder of SQLite, `?`, and the values by the text,
/// as the source shows.
#[verifier::external_body]
fn push_bind_text(statement: &mut Statement, value: String)
    ensures
        statement_text(*final(statement)) == statement_text(*old(statement)) + "?"@,
        statement_values(*final(statement)) == statement_values(*old(statement)).push(
            Argument::Text(value@),
        ),
{
    statement.builder.push_bind(value);
}

/// Calls `sqlx::QueryBuilder::push_bind` with a whole number.
/// Trusted: the text grows by the placeholder of SQLite, `?`, and the values by the
/// number, as the source shows.
#[verifier::external_body]
fn push_bind_integer(statement: &mut Statement, value: i64)
    ensures
        statement_text(*final(statement)) == statement_text(*old(statement)) + "?"@,
        statement_values(*final(statement)) == statement_values(*old(statement)).push(
            Argument::Integer(value as int),
        ),
{
    statement.builder.push_bind(value);
}

/// Calls `sqlx::QueryBuilder::push_bind` with the date and time in UTC of the instant
/// `nanos` nanoseconds into the second `seconds`.
/// Trusted: the text grows by the placeholder of SQLite, `?`, and the arguments by a
/// text, the one that `sqlx` writes for a date and time, as the source shows. `requires`
/// keeps the instant within the dates that `chrono` represents.
#[verifier::external_body]
fn push_bind_time(statement: &mut Statement, seconds: i64, nanos: u32)
    requires
        is_time(StampView { seconds: seconds as int, nanos: nanos as int }),
    ensures
        statement_text(*final(statement)) == statement_text(*old(statement)) + "?"@,
        statement_values(*final(statement)) == statement_values(*old(statement)).push(
            Argument::Text(time_text(seconds as int, nanos as int)),
        ),
{
    let at = chrono::DateTime::from_timestamp(seconds, nanos).unwrap();
    statement.builder.push_bind(at.naive_utc());
}

impl Statement {
    /// Hands out the builder, to be built and run, as the type `B` that the caller names:
    /// `sqlx::QueryBuilder<'static, sqlx::Sqlite>`. There is none for another type.
    /// Trusted, with nothing stated: the builder leaves the library as it is.
    #[verifier::external_body]
    pub fn into_builder<B: 'static>(self) -> Option<B> {
        let builder: Box<dyn std::any::Any> = Box::new(self.builder);
        builder.downcast::<B>().ok().map(|builder| *builder)
    }

    /// The statement that begins with `head` and binds nothing yet.
    pub(crate) fn new(head: &str) -> (statement: Statement)
        ensures
            statement_text(statement) == head@,
            statement_values(statement) == Seq::<Argument>::empty(),
    {
        begin(head)
    }

    /// Appends `sql` to the text.
    pub(crate) fn push(&mut self, sql: &str)
        ensures
            statement_text(*final(self)) == statement_text(*old(self)) + sql@,
            statement_values(*final(self)) == statement_values(*old(self)),
    {
        push(self, sql)
    }

    /// Appends a placeholder to the text and binds `value` to it.
    pub(crate) fn push_bind(&mut self, value: &Bound)
        requires
            value@ matches BoundView::Time(at) ==> is_time(at),
        ensures
            statement_text(*final(self)) == statement_text(*old(self)) + "?"@,
            statement_values(*final(self)) == statement_values(*old(self)).push(
                argument_of(value@),
            ),
    {
        match value {
            Bound::Text(text) => push_bind_text(self, text.clone()),
            Bound::Integer(number) => push_bind_integer(self, *number),
            Bound::Time(at) => push_bind_time(self, at.seconds, at.nanos),
        }
    }

    /// Appends the list of `bindings` to the text, each as `column = ?` with `separator`
    /// between them, and binds their values.
    pub(crate) fn push_list(&mut self, bindings: &Vec<Binding>, separator: &str)
        requires
            bindable(bindings.deep_view()),
        ensures
            statement_text(*final(self)) == statement_text(*old(self)) + listed(
                bindings.deep_view(),
                separator@,
            ),
            statement_values(*final(self)) == statement_values(*old(self)) + values_of(
                bindings.deep_view(),
            ),
    {
        let ghost all = bindings.deep_view();
        let mut i: usize = 0;
        assert(statement_text(*self) + listed(all.take(0), separator@) =~= statement_text(*self));
        assert(statement_values(*self) + values_of(all.take(0)) =~= statement_values(*self));
        while i < bindings.len()
            invariant
                i <= bindings.len(),
                all == bindings.deep_view(),
                bindable(all),
                statement_text(*self) == statement_text(*old(self)) + listed(
                    all.take(i as int),
                    separator@,
                ),
                statement_values(*self) == statement_values(*old(self)) + values_of(
                    all.take(i as int),
                ),
            decreases bindings.len() - i,
        {
            let ghost text = statement_text(*self);
            let ghost values = statement_values(*self);
            let ghost so_far = all.take(i as int);
            let ghost next = all.take(i + 1);
            if i > 0 {
                self.push(separator);
            }
            self.push(bindings[i].column);
            self.push(" = ");
            assert(all[i as int].value matches BoundView::Time(at) ==> is_time(at));
            self.push_bind(&bindings[i].value);
            proof {
                assert(next.drop_last() =~= so_far);
                assert(next.last() == all[i as int]);
                assert(statement_text(*self) =~= statement_text(*old(self)) + listed(
                    next,
                    separator@,
                ));
                assert(values_of(next) =~= values_of(so_far).push(argument_of(all[i as int].value)));
                assert(statement_values(*self) =~= statement_values(*old(self)) + values_of(next));
            }
            i = i + 1;
        }
        assert(all.take(bindings.len() as int) =~= all);
    }
}

} // verus!
