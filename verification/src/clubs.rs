//! Book clubs and the rules of the endpoints that manage them.
pub mod memberships;

use crate::reply::{text_reply, Reply, Status};
use crate::stamp::{is_time, Stamp, StampView};
use crate::statement::{
    bindable, listed, push_stamp, push_text, stamp_binding, statement_text, statement_values,
    text_binding, values_of, Argument, Binding, BindingView, Bound, Statement,
};
use crate::users::replaced;
use vstd::prelude::*;

verus! {

/// A club as the record store holds it.
#[derive(Debug)]
pub struct Club {
    pub id: i64,
    pub name: String,
    pub description: String,
    pub created_at: Stamp,
    pub updated_at: Stamp,
}

/// `Club` as plain values, for contracts.
pub struct ClubView {
    pub id: int,
    pub name: Seq<char>,
    pub description: Seq<char>,
    pub created_at: StampView,
    pub updated_at: StampView,
}

impl View for Club {
    type V = ClubView;

    open spec fn view(&self) -> ClubView {
        ClubView {
            id: self.id as int,
            name: self.name@,
            description: self.description@,
            created_at: self.created_at@,
            updated_at: self.updated_at@,
        }
    }
}

/// Body of the request that creates a club.
#[derive(Debug)]
pub struct CreateClubParams {
    pub name: String,
    pub description: String,
}

/// Body of the request that updates a club: only the fields that are given are set.
#[derive(Debug)]
pub struct UpdateClubParams {
    pub name: Option<String>,
    pub description: Option<String>,
}

impl UpdateClubParams {
    /// The columns that the update sets at time `now`, each with its new value: the
    /// fields that are given, in the order name, description, and always the time of
    /// the last update.
    pub open spec fn spec_assignments(&self, now: StampView) -> Seq<BindingView> {
        text_binding("name"@, self.name.deep_view()) + text_binding(
            "description"@,
            self.description.deep_view(),
        ) + stamp_binding(now)
    }

    /// The club that the update makes of `club` at time `now`: the fields that are given
    /// are replaced, the others stay, and the time of the last update is `now`.
    pub open spec fn spec_apply(&self, club: ClubView, now: StampView) -> ClubView {
        ClubView {
            name: replaced(club.name, self.name.deep_view()),
            description: replaced(club.description, self.description.deep_view()),
            updated_at: now,
            ..club
        }
    }

    /// The columns that the update sets at time `now`, each with its new value.
    pub fn assignments(&self, now: Stamp) -> (bindings: Vec<Binding>)
        ensures
            bindings.deep_view() == self.spec_assignments(now@),
            bindings.len() >= 1,
            bindable(bindings.deep_view()) == is_time(now@),
    {
        let mut bindings: Vec<Binding> = Vec::new();
        assert(bindings.deep_view() =~= Seq::empty());
        push_text(&mut bindings, "name", &self.name);
        push_text(&mut bindings, "description", &self.description);
        push_stamp(&mut bindings, now);
        assert(bindings.deep_view() =~= self.spec_assignments(now@));
        bindings
    }

    /// The club that the update makes of `club` at time `now`.
    pub fn apply(&self, club: Club, now: Stamp) -> (updated: Club)
        ensures
            updated@ == self.spec_apply(club@, now@),
    {
        let name = match &self.name {
            Some(text) => text.clone(),
            None => club.name,
        };
        let description = match &self.description {
            Some(text) => text.clone(),
            None => club.description,
        };
        Club { id: club.id, name, description, created_at: club.created_at, updated_at: now }
    }
}

/// The text of the statement that updates a club: the columns that are given and the
/// time of the last update are set, each to a placeholder, in the row with the given
/// identifier.
pub open spec fn update_club_text(params: &UpdateClubParams, now: StampView) -> Seq<char> {
    "UPDATE clubs SET "@ + listed(params.spec_assignments(now), ", "@) + " WHERE id = "@ + "?"@
}

/// The statement that updates the club `id` at time `now` as `params` say: it sets the
/// columns that are given and the time of the last update, and binds their values, then
/// the identifier. There is none where `now` is no time that can be bound.
pub fn update_club(params: &UpdateClubParams, id: i64, now: Stamp) -> (r: Option<Statement>)
    ensures
        match r {
            Some(statement) => {
                &&& is_time(now@)
                &&& statement_text(statement) == update_club_text(params, now@)
                &&& statement_values(statement) == values_of(
                    params.spec_assignments(now@),
                ).push(Argument::Integer(id as int))
            },
            None => !is_time(now@),
        },
{
    if !now.is_valid() {
        return None;
    }
    let mut statement = Statement::new("UPDATE clubs SET ");
    statement.push_list(&params.assignments(now), ", ");
    statement.push(" WHERE id = ");
    statement.push_bind(&Bound::Integer(id));
    assert(statement_values(statement) =~= values_of(params.spec_assignments(now@)).push(
        Argument::Integer(id as int),
    ));
    Some(statement)
}

/// The answer to the creation of a club: the club, under 201.
pub fn create_club(club: Club) -> (reply: Reply<Club>)
    ensures
        reply.is_json(Status::Created, club),
{
    Reply::Json { status: Status::Created, value: club }
}

/// The answer to the request for one club, and to the update of one: the club as the
/// store holds it, or 404 where it holds none under the identifier.
pub fn get_club_by_id(found: Option<Club>) -> (reply: Reply<Club>)
    ensures
        match found {
            Some(club) => reply.is_json(Status::Success, club),
            None => reply.is_text(Status::NotFound, "Club not found"@),
        },
{
    match found {
        Some(club) => Reply::Json { status: Status::Success, value: club },
        None => text_reply(Status::NotFound, "Club not found"),
    }
}

/// The answer to the deletion of a club, by the number of rows that went: 404 where no
/// club had the identifier, else 204 without a body.
pub fn delete_club(rows_affected: u64) -> (reply: Reply<()>)
    ensures
        rows_affected == 0 ==> reply.is_text(Status::NotFound, "Club not found"@),
        rows_affected > 0 ==> reply == (Reply::<()>::Empty { status: Status::NoContent }),
{
    if rows_affected == 0 {
        text_reply(Status::NotFound, "Club not found")
    } else {
        Reply::Empty { status: Status::NoContent }
    }
}

} // verus!
