//! The records that a login reads and writes, held in memory: login attempts, users and
//! sessions, with the rules that the record store keeps for them.
use crate::auth::flow::{StateRow, StateRowView};
use crate::auth::google::{
    authorize_url, is_fresh_attempt, login_address, LoginError, LoginErrorView, OAuthState,
    OAuthStateView, Registration, RegistrationView,
};
use crate::auth::session::{Session, SessionView};
use crate::stamp::{second, Stamp};
use crate::users::{User, UserView};
use vstd::prelude::*;
use vstd::string::*;

verus! {

/// Why the store refused to write.
#[derive(Clone, Copy, Debug, PartialEq, Eq, Structural)]
pub enum StoreError {
    /// A row with this key is there already.
    Duplicate,
    /// No identifier is left for a new row.
    Full,
}

/// The text that tells of `error`.
pub open spec fn store_error_message(error: StoreError) -> Seq<char> {
    match error {
        StoreError::Duplicate => "store: the key is taken"@,
        StoreError::Full => "store: no identifier is left"@,
    }
}

impl StoreError {
    /// The text that tells of this error.
    pub fn message(&self) -> (text: String)
        ensures
            text@ == store_error_message(*self),
    {
        match self {
            StoreError::Duplicate => String::from_str("store: the key is taken"),
            StoreError::Full => String::from_str("store: no identifier is left"),
        }
    }
}

/// Position of the first attempt stored under `csrf_state` at or after `from`, or the
/// number of attempts if there is none.
pub open spec fn state_index(states: Seq<OAuthStateView>, csrf_state: Seq<char>, from: int) -> int
    decreases states.len() - from,
{
    if from < 0 || from >= states.len() {
        states.len() as int
    } else if states[from].csrf_state == csrf_state {
        from
    } else {
        state_index(states, csrf_state, from + 1)
    }
}

/// Position of the first user with `email` at or after `from`, or the number of users
/// if there is none.
pub open spec fn user_index(users: Seq<UserView>, email: Seq<char>, from: int) -> int
    decreases users.len() - from,
{
    if from < 0 || from >= users.len() {
        users.len() as int
    } else if users[from].email == email {
        from
    } else {
        user_index(users, email, from + 1)
    }
}

/// The records of the store as plain values.
pub struct StoreView {
    pub states: Seq<OAuthStateView>,
    pub users: Seq<UserView>,
    pub sessions: Seq<SessionView>,
    pub next_user_id: int,
}

impl StoreView {
    /// No two attempts share a CSRF state, no two users share an email address, and every
    /// user's identifier was handed out before `next_user_id`.
    pub open spec fn wf(self) -> bool {
        &&& forall|i: int, j: int|
            0 <= i < j < self.states.len() ==> self.states[i].csrf_state
                != self.states[j].csrf_state
        &&& forall|i: int, j: int|
            0 <= i < j < self.users.len() ==> self.users[i].email != self.users[j].email
        &&& forall|i: int| 0 <= i < self.users.len() ==> (#[trigger] self.users[i]).id < self.next_user_id
        &&& self.next_user_id <= i64::MAX
    }

    /// Whether an attempt is stored under `csrf_state`.
    pub open spec fn has_state(self, csrf_state: Seq<char>) -> bool {
        state_index(self.states, csrf_state, 0) < self.states.len()
    }

    /// Stores `attempt`, unless its CSRF state is taken.
    pub open spec fn insert_state(self, attempt: OAuthStateView) -> (StoreView, Result<
        (),
        StoreError,
    >) {
        if self.has_state(attempt.csrf_state) {
            (self, Err(StoreError::Duplicate))
        } else {
            (StoreView { states: self.states.push(attempt), ..self }, Ok(()))
        }
    }

    /// Reads and deletes the attempt stored under `csrf_state`.
    pub open spec fn take_state(self, csrf_state: Seq<char>) -> (StoreView, Option<StateRowView>) {
        let i = state_index(self.states, csrf_state, 0);
        if i < self.states.len() {
            (
                StoreView { states: self.states.remove(i), ..self },
                Some(
                    StateRowView {
                        nonce: self.states[i].nonce,
                        return_url: self.states[i].return_url,
                    },
                ),
            )
        } else {
            (self, None)
        }
    }

    /// The identifier of the user with `email`.
    pub open spec fn find_user(self, email: Seq<char>) -> Option<int> {
        let i = user_index(self.users, email, 0);
        if i < self.users.len() {
            Some(self.users[i].id)
        } else {
            None
        }
    }

    /// Stores a new user at time `now` under the next identifier, unless the email address
    /// is taken or no identifier is left.
    pub open spec fn create_user(
        self,
        email: Seq<char>,
        first_name: Seq<char>,
        last_name: Seq<char>,
        now: int,
    ) -> (StoreView, Result<int, StoreError>) {
        if self.find_user(email) is Some {
            (self, Err(StoreError::Duplicate))
        } else if self.next_user_id >= i64::MAX {
            (self, Err(StoreError::Full))
        } else {
            (
                StoreView {
                    users: self.users.push(
                        UserView {
                            id: self.next_user_id,
                            email,
                            first_name,
                            last_name,
                            created_at: second(now),
                            updated_at: second(now),
                        },
                    ),
                    next_user_id: self.next_user_id + 1,
                    ..self
                },
                Ok(self.next_user_id),
            )
        }
    }

    /// Stores `session`.
    pub open spec fn insert_session(self, session: SessionView) -> StoreView {
        StoreView { sessions: self.sessions.push(session), ..self }
    }
}

/// The store after a login began with `attempt`, and what the login is answered: the
/// address of the attempt, once the attempt is stored; a failure, and the store as it
/// was, where the attempt has no address or its state is taken.
pub open spec fn authorized(store: StoreView, registration: RegistrationView, attempt: OAuthStateView) -> (
    StoreView,
    Result<Seq<char>, LoginErrorView>,
) {
    match login_address(registration, attempt) {
        None => (store, Err(LoginErrorView::BadRegistration)),
        Some(url) => match store.insert_state(attempt) {
            (stored, Ok(_)) => (stored, Ok(url)),
            (_, Err(error)) => (store, Err(LoginErrorView::Upstream(store_error_message(error)))),
        },
    }
}

/// What a login that began was answered, as plain values.
pub open spec fn authorized_view(r: Result<String, LoginError>) -> Result<
    Seq<char>,
    LoginErrorView,
> {
    match r {
        Ok(url) => Ok(url@),
        Err(error) => Err(error@),
    }
}

/// What `state_index` finds is the first attempt under that state, if there is any.
pub proof fn lemma_state_index(states: Seq<OAuthStateView>, csrf_state: Seq<char>, from: int)
    requires
        0 <= from,
    ensures
        ({
            let i = state_index(states, csrf_state, from);
            &&& from <= i || i == states.len()
            &&& i <= states.len()
            &&& i < states.len() ==> states[i].csrf_state == csrf_state
            &&& forall|j: int| from <= j < i ==> (#[trigger] states[j]).csrf_state != csrf_state
        }),
    decreases states.len() - from,
{
    if from < states.len() && states[from].csrf_state != csrf_state {
        lemma_state_index(states, csrf_state, from + 1);
    }
}

/// What `user_index` finds is the first user with that email address, if there is any.
pub proof fn lemma_user_index(users: Seq<UserView>, email: Seq<char>, from: int)
    requires
        0 <= from,
    ensures
        ({
            let i = user_index(users, email, from);
            &&& from <= i || i == users.len()
            &&& i <= users.len()
            &&& i < users.len() ==> users[i].email == email
            &&& forall|j: int| from <= j < i ==> (#[trigger] users[j]).email != email
        }),
    decreases users.len() - from,
{
    if from < users.len() && users[from].email != email {
        lemma_user_index(users, email, from + 1);
    }
}

/// The store in memory.
#[derive(Debug)]
pub struct LoginStore {
    pub states: Vec<OAuthState>,
    pub users: Vec<User>,
    pub sessions: Vec<Session>,
    pub next_user_id: i64,
}

impl View for LoginStore {
    type V = StoreView;

    open spec fn view(&self) -> StoreView {
        StoreView {
            states: self.states.deep_view(),
            users: self.users.deep_view(),
            sessions: self.sessions.deep_view(),
            next_user_id: self.next_user_id as int,
        }
    }
}

impl LoginStore {
    /// A store without records, whose first user gets the identifier 1.
    pub fn new() -> (store: LoginStore)
        ensures
            store@.wf(),
            store@.states.len() == 0,
            store@.users.len() == 0,
            store@.sessions.len() == 0,
            store@.next_user_id == 1,
    {
        LoginStore { states: Vec::new(), users: Vec::new(), sessions: Vec::new(), next_user_id: 1 }
    }

    fn state_position(&self, csrf_state: &String) -> (i: usize)
        ensures
            i == state_index(self@.states, csrf_state@, 0),
    {
        let mut i: usize = 0;
        while i < self.states.len()
            invariant
                i <= self.states.len(),
                state_index(self@.states, csrf_state@, 0) == state_index(
                    self@.states,
                    csrf_state@,
                    i as int,
                ),
            decreases self.states.len() - i,
        {
            if self.states[i].csrf_state == *csrf_state {
                return i;
            }
            i = i + 1;
        }
        i
    }

    fn user_position(&self, email: &String) -> (i: usize)
        ensures
            i == user_index(self@.users, email@, 0),
    {
        let mut i: usize = 0;
        while i < self.users.len()
            invariant
                i <= self.users.len(),
                user_index(self@.users, email@, 0) == user_index(self@.users, email@, i as int),
            decreases self.users.len() - i,
        {
            if self.users[i].email == *email {
                return i;
            }
            i = i + 1;
        }
        i
    }

    /// Stores `attempt`, unless its CSRF state is taken.
    pub fn insert_state(&mut self, attempt: OAuthState) -> (r: Result<(), StoreError>)
        requires
            old(self)@.wf(),
        ensures
            final(self)@.wf(),
            (final(self)@, r) == old(self)@.insert_state(attempt@),
    {
        if self.state_position(&attempt.csrf_state) < self.states.len() {
            return Err(StoreError::Duplicate);
        }
        proof {
            lemma_state_index(self@.states, attempt@.csrf_state, 0);
        }
        self.states.push(attempt);
        proof {
            let before = old(self)@.states;
            let after = self@.states;
            assert(after =~= before.push(attempt@));
            assert(self@.users == old(self)@.users);
            assert forall|i: int, j: int| 0 <= i < j < after.len() implies after[i].csrf_state
                != after[j].csrf_state by {
                if j == before.len() {
                    assert(before[i].csrf_state != attempt@.csrf_state);
                } else {
                    assert(before[i].csrf_state != before[j].csrf_state);
                }
            }
        }
        Ok(())
    }

    /// Begins a login that is to end at `return_url`: stores an attempt with a fresh
    /// random CSRF state and nonce, and hands out the address to send the user to. Which
    /// tokens they are is open; the attempt is stored before the address is handed out,
    /// and nothing is stored where there is no address or the state is taken.
    pub fn authorize(&mut self, registration: &Registration, return_url: &str) -> (r: Result<
        String,
        LoginError,
    >)
        requires
            old(self)@.wf(),
        ensures
            final(self)@.wf(),
            exists|attempt: OAuthStateView|
                {
                    &&& #[trigger] is_fresh_attempt(attempt, return_url@)
                    &&& (final(self)@, authorized_view(r)) == authorized(
                        old(self)@,
                        registration@,
                        attempt,
                    )
                },
    {
        match authorize_url(registration, return_url) {
            None => Err(LoginError::BadRegistration),
            Some((attempt, url)) => {
                let ghost stored = attempt@;
                let r = match self.insert_state(attempt) {
                    Ok(_) => Ok(url),
                    Err(error) => Err(LoginError::Upstream(error.message())),
                };
                assert(is_fresh_attempt(stored, return_url@));
                assert((self@, authorized_view(r)) == authorized(
                    old(self)@,
                    registration@,
                    stored,
                ));
                r
            },
        }
    }

    /// Reads and deletes the attempt stored under `csrf_state`.
    pub fn take_state(&mut self, csrf_state: &String) -> (row: Option<StateRow>)
        requires
            old(self)@.wf(),
        ensures
            final(self)@.wf(),
            (final(self)@, row.deep_view()) == old(self)@.take_state(csrf_state@),
    {
        let i = self.state_position(csrf_state);
        if i < self.states.len() {
            let attempt = self.states.remove(i);
            assert(self@.states =~= old(self)@.states.remove(i as int));
            Some(StateRow { nonce: attempt.nonce, return_url: attempt.return_url })
        } else {
            None
        }
    }

    /// The identifier of the user with `email`.
    pub fn find_user(&self, email: &String) -> (id: Option<i64>)
        ensures
            match id {
                Some(id) => self@.find_user(email@) == Some(id as int),
                None => self@.find_user(email@) is None,
            },
    {
        let i = self.user_position(email);
        if i < self.users.len() {
            Some(self.users[i].id)
        } else {
            None
        }
    }

    /// Stores a new user at time `now` under the next identifier, unless the email address
    /// is taken or no identifier is left.
    pub fn create_user(
        &mut self,
        email: String,
        first_name: String,
        last_name: String,
        now: i64,
    ) -> (r: Result<i64, StoreError>)
        requires
            old(self)@.wf(),
        ensures
            final(self)@.wf(),
            final(self)@ == old(self)@.create_user(email@, first_name@, last_name@, now as int).0,
            match r {
                Ok(id) => old(self)@.create_user(email@, first_name@, last_name@, now as int).1
                    == Ok::<int, StoreError>(id as int),
                Err(e) => old(self)@.create_user(email@, first_name@, last_name@, now as int).1
                    == Err::<int, StoreError>(e),
            },
    {
        if self.user_position(&email) < self.users.len() {
            return Err(StoreError::Duplicate);
        }
        if self.next_user_id >= i64::MAX {
            return Err(StoreError::Full);
        }
        proof {
            lemma_user_index(self@.users, email@, 0);
        }
        let id = self.next_user_id;
        let user = User {
            id,
            email,
            first_name,
            last_name,
            created_at: Stamp::at(now),
            updated_at: Stamp::at(now),
        };
        self.users.push(user);
        self.next_user_id = id + 1;
        assert(self@.users =~= old(self)@.users.push(user@));
        Ok(id)
    }

    /// Stores `session`.
    pub fn insert_session(&mut self, session: Session)
        requires
            old(self)@.wf(),
        ensures
            final(self)@.wf(),
            final(self)@ == old(self)@.insert_session(session@),
    {
        self.sessions.push(session);
        assert(self@.sessions =~= old(self)@.sessions.push(session@));
        assert(self@ == old(self)@.insert_session(session@));
    }
}

} // verus!
