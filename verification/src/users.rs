//! Users of the service and the rules of the endpoints that manage them.
use crate::reply::{text_reply, Reply, Status};
use crate::stamp::{is_time, Stamp, StampView};
use crate::statement::{
    bindable, listed, push_stamp, push_text, stamp_binding, statement_text, statement_values,
    text_binding, values_of, Argument, Binding, BindingView, Bound, Statement,
};
use vstd::prelude::*;

verus! {

/// A user as the record store holds it. The email address is the key by which a login
/// finds its user.
#[derive(Debug)]
pub struct User {
    pub id: i64,
    pub email: String,
    pub first_name: String,
    pub last_name: String,
    pub created_at: Stamp,
    pub updated_at: Stamp,
}

/// `User` as plain values, for contracts.
pub struct UserView {
    pub id: int,
    pub email: Seq<char>,
    pub first_name: Seq<char>,
    pub last_name: Seq<char>,
    pub created_at: StampView,
    pub updated_at: StampView,
}

impl View for User {
    type V = UserView;

    open spec fn view(&self) -> UserView {
        UserView {
            id: self.id as int,
            email: self.email@,
            first_name: self.first_name@,
            last_name: self.last_name@,
            created_at: self.created_at@,
            updated_at: self.updated_at@,
        }
    }
}

impl DeepView for User {
    type V = UserView;

    open spec fn deep_view(&self) -> UserView {
        self@
    }
}

/// Body of the request that creates a user.
#[derive(Debug)]
pub struct CreateUserParams {
    pub email: String,
    pub first_name: String,
    pub last_name: String,
}

/// Body of the request that updates a user: only the fields that are given are set.
#[derive(Debug)]
pub struct UpdateUserParams {
    pub email: Option<String>,
    pub first_name: Option<String>,
    pub last_name: Option<String>,
}

/// Query of the search for users: every field that is given must match.
#[derive(Debug)]
pub struct FindUserParams {
    pub email: Option<String>,
    pub first_name: Option<String>,
    pub last_name: Option<String>,
}

/// `current`, or `given` where a value is given.
pub open spec fn replaced(current: Seq<char>, given: Option<Seq<char>>) -> Seq<char> {
    match given {
        Some(text) => text,
        None => current,
    }
}

fn replace(current: String, given: &Option<String>) -> (r: String)
    ensures
        r@ == replaced(current@, given.deep_view()),
{
    match given {
        Some(text) => text.clone(),
        None => current,
    }
}

/// Whether `value` equals `given`, or nothing is given.
pub open spec fn agrees(value: Seq<char>, given: Option<Seq<char>>) -> bool {
    given matches Some(text) ==> text == value
}

/// Whether `value` equals `given`, or nothing is given.
pub fn agrees_with(value: &String, given: &Option<String>) -> (r: bool)
    ensures
        r == agrees(value@, given.deep_view()),
{
    match given {
        Some(text) => *text == *value,
        None => true,
    }
}

impl UpdateUserParams {
    /// The columns that the update sets at time `now`, each with its new value: the
    /// fields that are given, in the order email, first name, last name, and always the
    /// time of the last update.
    pub open spec fn spec_assignments(&self, now: StampView) -> Seq<BindingView> {
        text_binding("email"@, self.email.deep_view()) + text_binding(
            "first_name"@,
            self.first_name.deep_view(),
        ) + text_binding("last_name"@, self.last_name.deep_view()) + stamp_binding(now)
    }

    /// The user that the update makes of `user` at time `now`: the fields that are given
    /// are replaced, the others stay, and the time of the last update is `now`.
    pub open spec fn spec_apply(&self, user: UserView, now: StampView) -> UserView {
        UserView {
            email: replaced(user.email, self.email.deep_view()),
            first_name: replaced(user.first_name, self.first_name.deep_view()),
            last_name: replaced(user.last_name, self.last_name.deep_view()),
            updated_at: now,
            ..user
        }
    }

    /// The columns that the update sets at time `now`, each with its new value.
    pub fn assignments(&self, now: Stamp) -> (bindings: Vec<Binding>)
        ensures
            bindings.deep_view() == self.spec_assignments(now@),
            bindings.len() >= 1,
            bindable(bindings.deep_view()) == is_time(now@),
    {
        let mut bindings: Vec<Binding> = Vec::new();
        assert(bindings.deep_view() =~= Seq::empty());
        push_text(&mut bindings, "email", &self.email);
        push_text(&mut bindings, "first_name", &self.first_name);
        push_text(&mut bindings, "last_name", &self.last_name);
        push_stamp(&mut bindings, now);
        assert(bindings.deep_view() =~= self.spec_assignments(now@));
        bindings
    }

    /// The user that the update makes of `user` at time `now`.
    pub fn apply(&self, user: User, now: Stamp) -> (updated: User)
        ensures
            updated@ == self.spec_apply(user@, now@),
    {
        User {
            id: user.id,
            email: replace(user.email, &self.email),
            first_name: replace(user.first_name, &self.first_name),
            last_name: replace(user.last_name, &self.last_name),
            created_at: user.created_at,
            updated_at: now,
        }
    }
}

impl FindUserParams {
    /// Whether no field is given.
    pub open spec fn spec_is_empty(&self) -> bool {
        self.email is None && self.first_name is None && self.last_name is None
    }

    /// The columns that the search compares, each with the value it must have.
    pub open spec fn spec_filters(&self) -> Seq<BindingView> {
        text_binding("email"@, self.email.deep_view()) + text_binding(
            "first_name"@,
            self.first_name.deep_view(),
        ) + text_binding("last_name"@, self.last_name.deep_view())
    }

    /// Whether `user` has every value that is given.
    pub open spec fn spec_matches(&self, user: UserView) -> bool {
        &&& agrees(user.email, self.email.deep_view())
        &&& agrees(user.first_name, self.first_name.deep_view())
        &&& agrees(user.last_name, self.last_name.deep_view())
    }

    /// Whether no field is given.
    #[verifier::when_used_as_spec(spec_is_empty)]
    pub fn is_empty(&self) -> (r: bool)
        ensures
            r == self.spec_is_empty(),
    {
        self.email.is_none() && self.first_name.is_none() && self.last_name.is_none()
    }

    /// The columns that the search compares, each with the value it must have.
    pub fn filters(&self) -> (bindings: Vec<Binding>)
        ensures
            bindings.deep_view() == self.spec_filters(),
            bindable(bindings.deep_view()),
    {
        let mut bindings: Vec<Binding> = Vec::new();
        assert(bindings.deep_view() =~= Seq::empty());
        push_text(&mut bindings, "email", &self.email);
        push_text(&mut bindings, "first_name", &self.first_name);
        push_text(&mut bindings, "last_name", &self.last_name);
        assert(bindings.deep_view() =~= self.spec_filters());
        bindings
    }

    /// Whether `user` has every value that is given.
    pub fn matches(&self, user: &User) -> (r: bool)
        ensures
            r == self.spec_matches(user@),
    {
        agrees_with(&user.email, &self.email) && agrees_with(&user.first_name, &self.first_name)
            && agrees_with(&user.last_name, &self.last_name)
    }
}

/// The answer to the request for one user, and to the update of one: the user as the
/// store holds it, or 404 where it holds none under the identifier.
pub fn get_user_by_id(found: Option<User>) -> (reply: Reply<User>)
    ensures
        match found {
            Some(user) => reply.is_json(Status::Success, user),
            None => reply.is_text(Status::NotFound, "User not found"@),
        },
{
    match found {
        Some(user) => Reply::Json { status: Status::Success, value: user },
        None => text_reply(Status::NotFound, "User not found"),
    }
}

/// The answer to the deletion of a user, by the number of rows that went: 404 for none,
/// 204 for one, 500 for more.
pub fn delete_user(rows_affected: u64) -> (reply: Reply<()>)
    ensures
        rows_affected == 0 ==> reply.is_text(Status::NotFound, "User not found"@),
        rows_affected == 1 ==> reply.is_text(Status::NoContent, "User successfully deleted"@),
        rows_affected > 1 ==> reply.is_text(
            Status::InternalServerError,
            "Multiple users deleted"@,
        ),
{
    if rows_affected == 0 {
        text_reply(Status::NotFound, "User not found")
    } else if rows_affected == 1 {
        text_reply(Status::NoContent, "User successfully deleted")
    } else {
        text_reply(Status::InternalServerError, "Multiple users deleted")
    }
}

/// The text of the statement that updates a user: the columns that are given and the
/// time of the last update are set, each to a placeholder, in the row with the given
/// identifier.
pub open spec fn update_user_text(params: &UpdateUserParams, now: StampView) -> Seq<char> {
    "UPDATE users SET "@ + listed(params.spec_assignments(now), ", "@) + " WHERE id = "@ + "?"@
}

/// The text of the statement that searches for users: all columns of the rows in which
/// every column that is given equals its placeholder.
pub open spec fn find_users_text(params: &FindUserParams) -> Seq<char> {
    "SELECT id, email, first_name, last_name, created_at, updated_at FROM users WHERE "@
        + listed(params.spec_filters(), " AND "@)
}

/// The statement that updates the user `id` at time `now` as `params` say: it sets the
/// columns that are given and the time of the last update, and binds their values, then
/// the identifier. Where no field is given, the time of the last update is all that it
/// sets. There is none where `now` is no time that can be bound.
pub fn update_user(params: &UpdateUserParams, id: i64, now: Stamp) -> (r: Option<Statement>)
    ensures
        match r {
            Some(statement) => {
                &&& is_time(now@)
                &&& statement_text(statement) == update_user_text(params, now@)
                &&& statement_values(statement) == values_of(
                    params.spec_assignments(now@),
                ).push(Argument::Integer(id as int))
            },
            None => !is_time(now@),
        },
{
    if !now.is_valid() {
        return None;
    }
    let mut statement = Statement::new("UPDATE users SET ");
    statement.push_list(&params.assignments(now), ", ");
    statement.push(" WHERE id = ");
    statement.push_bind(&Bound::Integer(id));
    assert(statement_values(statement) =~= values_of(params.spec_assignments(now@)).push(
        Argument::Integer(id as int),
    ));
    Some(statement)
}

/// What a search for users does before the store is asked: it answers 400 where no field
/// is given, else it makes the statement that searches by the fields that are given.
pub fn find_users(params: &FindUserParams) -> (r: Result<Statement, Reply<Vec<User>>>)
    ensures
        match r {
            Ok(statement) => {
                &&& !params.spec_is_empty()
                &&& statement_text(statement) == find_users_text(params)
                &&& statement_values(statement) == values_of(params.spec_filters())
            },
            Err(reply) => params.spec_is_empty() && reply.is_text(
                Status::BadRequest,
                "No search parameters provided"@,
            ),
        },
{
    if params.is_empty() {
        Err(text_reply(Status::BadRequest, "No search parameters provided"))
    } else {
        let mut statement = Statement::new(
            "SELECT id, email, first_name, last_name, created_at, updated_at FROM users WHERE ",
        );
        statement.push_list(&params.filters(), " AND ");
        assert(statement_values(statement) =~= values_of(params.spec_filters()));
        Ok(statement)
    }
}

/// What a search for users answers once the store was asked: the users found, 404 where
/// there are none, 500 where the store failed (`found` is `None`).
pub fn find_users_reply(found: Option<Vec<User>>) -> (reply: Reply<Vec<User>>)
    ensures
        match found {
            None => reply.is_text(Status::InternalServerError, "Error fetching users"@),
            Some(users) => if users.len() == 0 {
                reply.is_text(Status::NotFound, "No users found"@)
            } else {
                reply.is_json(Status::Success, users)
            },
        },
{
    match found {
        None => text_reply(Status::InternalServerError, "Error fetching users"),
        Some(users) => if users.len() == 0 {
            text_reply(Status::NotFound, "No users found")
        } else {
            Reply::Json { status: Status::Success, value: users }
        },
    }
}

} // verus!
