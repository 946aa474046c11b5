//! A whole callback, run against the store in memory and a provider whose answers are
//! given: what a login leaves in the store and what it hands back.
use crate::auth::flow::{
    advance_with, begin, next_step, Answer, AnswerView, Progress, ProgressView, Request,
    RequestView, StateRowView,
};
use crate::auth::google::{callback_params, LoginError, LoginErrorView, UserInfo, UserInfoView};
use crate::auth::session::{
    issued, token_of, Session, SessionSeed, SessionSeedView, SESSION_LIFETIME,
};
use crate::auth::store::{
    lemma_state_index, lemma_user_index, state_index, store_error_message, user_index, LoginStore,
    StoreError, StoreView,
};
use vstd::prelude::*;

verus! {

/// What the identity provider answers during one callback: why it refuses the
/// authorization code, if it does; why the identity token does not hold, if it does not;
/// and the user-info resource, or why it cannot be had.
#[derive(Debug)]
pub struct Provider {
    pub exchange_failure: Option<String>,
    pub verification_failure: Option<String>,
    pub user_info: Result<UserInfo, String>,
}

/// `Provider` as plain values, for contracts.
pub struct ProviderView {
    pub exchange_failure: Option<Seq<char>>,
    pub verification_failure: Option<Seq<char>>,
    pub user_info: Result<UserInfoView, Seq<char>>,
}

impl View for Provider {
    type V = ProviderView;

    open spec fn view(&self) -> ProviderView {
        ProviderView {
            exchange_failure: self.exchange_failure.deep_view(),
            verification_failure: self.verification_failure.deep_view(),
            user_info: match self.user_info {
                Ok(info) => Ok(info@),
                Err(text) => Err(text@),
            },
        }
    }
}

impl ProviderView {
    /// The user that the provider vouches for, or the first failure on the way there:
    /// code exchange, then token verification, then user info.
    pub open spec fn user(self) -> Result<UserInfoView, Seq<char>> {
        match (self.exchange_failure, self.verification_failure) {
            (Some(text), _) => Err(text),
            (None, Some(text)) => Err(text),
            (None, None) => self.user_info,
        }
    }
}

/// What a finished login hands back: the session token and where to send the user.
pub type LoginResult = Result<(Seq<char>, Seq<char>), LoginErrorView>;

/// The user of a login: the one stored under the email address, or a new one.
pub open spec fn upsert_user(store: StoreView, info: UserInfoView, now: int) -> (
    StoreView,
    Result<int, StoreError>,
) {
    match store.find_user(info.email) {
        Some(id) => (store, Ok(id)),
        None => store.create_user(info.email, info.given_name, info.family_name, now),
    }
}

/// What the callback with the parameters `state` and `code` leaves in `store` and hands
/// back, when the provider answers as `provider` says and a session is issued from `seed`.
///
/// The attempt stored under `state` is deleted as soon as it is read, whatever follows. A
/// user is stored only for a verified email address that has none yet, and a session only
/// when everything before it succeeded.
pub open spec fn login_outcome(
    store: StoreView,
    provider: ProviderView,
    state: Option<Seq<char>>,
    code: Option<Seq<char>>,
    seed: SessionSeedView,
) -> (StoreView, LoginResult) {
    if state is None {
        (store, Err(LoginErrorView::MissingState))
    } else if code is None {
        (store, Err(LoginErrorView::MissingCode))
    } else {
        let (store, row) = store.take_state(state->0);
        match (row, provider.user()) {
            (None, _) => (store, Err(LoginErrorView::InvalidState)),
            (Some(_), Err(text)) => (store, Err(LoginErrorView::Upstream(text))),
            (Some(row), Ok(info)) => {
                if !info.verified_email {
                    (store, Err(LoginErrorView::EmailNotVerified))
                } else {
                    let (store, user) = upsert_user(store, info, seed.now);
                    match user {
                        Err(error) => (
                            store,
                            Err(LoginErrorView::Upstream(store_error_message(error))),
                        ),
                        Ok(id) => match issued(id, seed) {
                            None => (store, Err(LoginErrorView::ClockOutOfRange)),
                            Some(session) => (
                                store.insert_session(session),
                                Ok((token_of(seed.first, seed.second), row.return_url)),
                            ),
                        },
                    }
                }
            },
        }
    }
}

/// The store after `request` was carried out at time `now`, and the answer to it. A
/// request that ends the login is not carried out and has no answer.
pub open spec fn answered(store: StoreView, provider: ProviderView, request: RequestView, now: int) -> (
    StoreView,
    Option<AnswerView>,
) {
    match request {
        RequestView::TakeState { csrf_state } => {
            let (store, row) = store.take_state(csrf_state);
            (store, Some(AnswerView::State(row)))
        },
        RequestView::ExchangeCode { code } => (
            store,
            Some(
                match provider.exchange_failure {
                    Some(text) => AnswerView::Failure(text),
                    None => AnswerView::Tokens,
                },
            ),
        ),
        RequestView::VerifyIdToken { nonce } => (
            store,
            Some(
                match provider.verification_failure {
                    Some(text) => AnswerView::Failure(text),
                    None => AnswerView::Claims,
                },
            ),
        ),
        RequestView::FetchUserInfo => (
            store,
            Some(
                match provider.user_info {
                    Ok(info) => AnswerView::UserInfo(info),
                    Err(text) => AnswerView::Failure(text),
                },
            ),
        ),
        RequestView::FindUser { email } => (store, Some(AnswerView::User(store.find_user(email)))),
        RequestView::CreateUser { email, first_name, last_name } => {
            let (store, id) = store.create_user(email, first_name, last_name, now);
            (
                store,
                Some(
                    match id {
                        Ok(id) => AnswerView::NewUser(id),
                        Err(error) => AnswerView::Failure(store_error_message(error)),
                    },
                ),
            )
        },
        RequestView::CreateSession { session } => (
            store.insert_session(session),
            Some(AnswerView::SessionStored),
        ),
        RequestView::Finish { .. } => (store, None),
        RequestView::Abort { .. } => (store, None),
    }
}

/// One question and its answer: the store and the step after `request` was carried out.
/// A login that is over stays as it is.
pub open spec fn turned(
    store: StoreView,
    provider: ProviderView,
    progress: ProgressView,
    request: RequestView,
    seed: SessionSeedView,
) -> (StoreView, ProgressView, RequestView) {
    match answered(store, provider, request, seed.now) {
        (store, Some(answer)) => {
            let (progress, request) = next_step(progress, answer, seed);
            (store, progress, request)
        },
        (_, None) => (store, progress, request),
    }
}

/// Taking an attempt out of a well-formed store leaves it well-formed and without any
/// attempt under that state.
pub proof fn lemma_take_state_removes(store: StoreView, csrf_state: Seq<char>)
    requires
        store.wf(),
    ensures
        store.take_state(csrf_state).0.wf(),
        !store.take_state(csrf_state).0.has_state(csrf_state),
        store.take_state(csrf_state).0.users == store.users,
        store.take_state(csrf_state).0.sessions == store.sessions,
{
    let i = state_index(store.states, csrf_state, 0);
    lemma_state_index(store.states, csrf_state, 0);
    let after = store.take_state(csrf_state).0;
    lemma_state_index(after.states, csrf_state, 0);
    if i < store.states.len() {
        assert forall|j: int| 0 <= j < after.states.len() implies (#[trigger] after.states[j]).csrf_state
            != csrf_state by {
            if j < i {
                assert(after.states[j] == store.states[j]);
            } else {
                assert(after.states[j] == store.states[j + 1]);
            }
        }
        assert forall|a: int, b: int| 0 <= a < b < after.states.len() implies after.states[a].csrf_state
            != after.states[b].csrf_state by {
            let a0 = if a < i { a } else { a + 1 };
            let b0 = if b < i { b } else { b + 1 };
            assert(after.states[a] == store.states[a0]);
            assert(after.states[b] == store.states[b0]);
        }
    }
    let k = state_index(after.states, csrf_state, 0);
    if k < after.states.len() {
        assert(after.states[k].csrf_state == csrf_state);
    }
}

/// The user of a login is stored afterwards, once, under the identifier that the login
/// used; the store stays well-formed and keeps all users it had.
pub proof fn lemma_upsert_user(store: StoreView, info: UserInfoView, now: int)
    requires
        store.wf(),
    ensures
        ({
            let (after, user) = upsert_user(store, info, now);
            &&& after.wf()
            &&& after.states == store.states
            &&& after.sessions == store.sessions
            &&& user matches Ok(id) ==> {
                &&& after.find_user(info.email) == Some(id)
                &&& exists|i: int|
                    0 <= i < after.users.len() && (#[trigger] after.users[i]).email == info.email
                        && after.users[i].id == id
                &&& forall|i: int, j: int|
                    0 <= i < after.users.len() && 0 <= j < after.users.len() && (
                    #[trigger] after.users[i]).email == info.email && (
                    #[trigger] after.users[j]).email == info.email ==> i == j
            }
            &&& user is Err ==> after == store
        }),
{
    let (after, user) = upsert_user(store, info, now);
    lemma_user_index(store.users, info.email, 0);
    lemma_user_index(after.users, info.email, 0);
    let i = user_index(store.users, info.email, 0);
    if i < store.users.len() {
        assert(after == store);
        assert(after.users[i].email == info.email);
    } else if store.next_user_id < i64::MAX {
        let n = store.users.len() as int;
        assert(after.users[n].email == info.email);
        assert forall|a: int, b: int| 0 <= a < b < after.users.len() implies after.users[a].email
            != after.users[b].email by {
            if b == n {
                assert(after.users[a] == store.users[a]);
            } else {
                assert(after.users[a] == store.users[a]);
                assert(after.users[b] == store.users[b]);
            }
        }
        assert forall|a: int| 0 <= a < after.users.len() implies (#[trigger] after.users[a]).id
            < after.next_user_id by {
            if a < n {
                assert(after.users[a] == store.users[a]);
            }
        }
        let k = user_index(after.users, info.email, 0);
        assert(k == n) by {
            if k < n {
                assert(after.users[k] == store.users[k]);
            }
        }
    }
    if user is Ok {
        assert forall|a: int, b: int|
            0 <= a < after.users.len() && 0 <= b < after.users.len() && (
            #[trigger] after.users[a]).email == info.email && (#[trigger] after.users[b]).email
                == info.email implies a == b by {
            if a < b {
                assert(after.users[a].email != after.users[b].email);
            } else if b < a {
                assert(after.users[b].email != after.users[a].email);
            }
        }
    }
}

/// A callback keeps the store well-formed.
pub proof fn lemma_login_keeps_store(
    store: StoreView,
    provider: ProviderView,
    state: Option<Seq<char>>,
    code: Option<Seq<char>>,
    seed: SessionSeedView,
)
    requires
        store.wf(),
    ensures
        login_outcome(store, provider, state, code, seed).0.wf(),
{
    if state is Some && code is Some {
        lemma_take_state_removes(store, state->0);
        let taken = store.take_state(state->0).0;
        if let Ok(info) = provider.user() {
            lemma_upsert_user(taken, info, seed.now);
        }
    }
}

/// A state is good for one callback. After a callback that came with `state` and a code,
/// however it ended, no attempt is stored under `state`, and a second callback with the
/// same `state` fails as one with an invalid state and leaves the store as it is.
pub proof fn lemma_state_is_single_use(
    store: StoreView,
    state: Seq<char>,
    first_provider: ProviderView,
    first_code: Seq<char>,
    first_seed: SessionSeedView,
    second_provider: ProviderView,
    second_code: Seq<char>,
    second_seed: SessionSeedView,
)
    requires
        store.wf(),
    ensures
        ({
            let after = login_outcome(
                store,
                first_provider,
                Some(state),
                Some(first_code),
                first_seed,
            ).0;
            &&& !after.has_state(state)
            &&& login_outcome(after, second_provider, Some(state), Some(second_code), second_seed)
                == (after, Err::<(Seq<char>, Seq<char>), LoginErrorView>(LoginErrorView::InvalidState))
        }),
{
    lemma_take_state_removes(store, state);
    let taken = store.take_state(state).0;
    let after = login_outcome(store, first_provider, Some(state), Some(first_code), first_seed).0;
    assert(after.states == taken.states) by {
        if let Ok(info) = first_provider.user() {
            lemma_upsert_user(taken, info, first_seed.now);
        }
    }
    lemma_state_index(after.states, state, 0);
    assert(state_index(after.states, state, 0) == after.states.len());
    assert(after.take_state(state) == (after, None::<StateRowView>));
}

/// No session without a verified email address. Where the provider has not verified the
/// user's email address, the callback fails and the store holds the sessions and the users
/// that it held before.
pub proof fn lemma_unverified_email_gets_no_session(
    store: StoreView,
    provider: ProviderView,
    state: Option<Seq<char>>,
    code: Option<Seq<char>>,
    seed: SessionSeedView,
)
    requires
        store.wf(),
        provider.user() matches Ok(info) && !info.verified_email,
    ensures
        ({
            let (after, result) = login_outcome(store, provider, state, code, seed);
            &&& result is Err
            &&& after.sessions == store.sessions
            &&& after.users == store.users
            &&& state is Some && code is Some && store.has_state(state->0) ==> result == Err::<
                (Seq<char>, Seq<char>),
                LoginErrorView,
            >(LoginErrorView::EmailNotVerified)
        }),
{
    if state is Some && code is Some {
        lemma_take_state_removes(store, state->0);
    }
}

/// A callback stores a session exactly when it succeeds: then one session is added, for
/// the user stored under the verified email address, whose token is the one handed back
/// and which ends `SESSION_LIFETIME` seconds after it began. A callback that fails adds
/// none.
pub proof fn lemma_session_on_success_only(
    store: StoreView,
    provider: ProviderView,
    state: Option<Seq<char>>,
    code: Option<Seq<char>>,
    seed: SessionSeedView,
)
    requires
        store.wf(),
    ensures
        ({
            let (after, result) = login_outcome(store, provider, state, code, seed);
            match result {
                Err(_) => after.sessions == store.sessions,
                Ok((token, return_url)) => {
                    let session = after.sessions.last();
                    &&& after.sessions == store.sessions.push(session)
                    &&& session.expires_at - session.created_at == SESSION_LIFETIME
                    &&& token == token_of(session.session_token_p1, session.session_token_p2)
                    &&& provider.user() matches Ok(info) && info.verified_email && after.find_user(
                        info.email,
                    ) == Some(session.user_id)
                },
            }
        }),
{
    if state is Some && code is Some {
        lemma_take_state_removes(store, state->0);
        let taken = store.take_state(state->0).0;
        if let Ok(info) = provider.user() {
            lemma_upsert_user(taken, info, seed.now);
        }
    }
}

/// A valid callback succeeds and consumes one attempt. Where an attempt is stored under
/// `state`, the provider vouches for a user with a verified email address, an
/// identifier is left for that user should there be none yet, and the session's end can
/// be written down, the callback hands back the token of `seed` and the attempt's return
/// address. The store then holds every attempt it held but the one under `state`, and
/// one session more.
pub proof fn lemma_valid_callback_succeeds(
    store: StoreView,
    provider: ProviderView,
    state: Seq<char>,
    code: Seq<char>,
    seed: SessionSeedView,
)
    requires
        store.wf(),
        store.has_state(state),
        provider.user() matches Ok(info) && info.verified_email && (store.find_user(info.email)
            is Some || store.next_user_id < i64::MAX),
        seed.now + SESSION_LIFETIME <= i64::MAX,
    ensures
        ({
            let (after, result) = login_outcome(store, provider, Some(state), Some(code), seed);
            let i = state_index(store.states, state, 0);
            &&& 0 <= i < store.states.len()
            &&& store.states[i].csrf_state == state
            &&& result == Ok::<(Seq<char>, Seq<char>), LoginErrorView>(
                (token_of(seed.first, seed.second), store.states[i].return_url),
            )
            &&& after.states == store.states.remove(i)
            &&& !after.has_state(state)
            &&& after.sessions.len() == store.sessions.len() + 1
        }),
{
    lemma_state_index(store.states, state, 0);
    lemma_take_state_removes(store, state);
    let taken = store.take_state(state).0;
    let info = provider.user()->Ok_0;
    assert(taken.find_user(info.email) == store.find_user(info.email));
    lemma_upsert_user(taken, info, seed.now);
}

/// A login of a known user changes no user. Where the callback is valid and a user is
/// stored under the email address that the provider vouches for, the callback succeeds,
/// the users stay as they were, whatever names the provider gives, and the session that
/// is stored belongs to that user.
pub proof fn lemma_known_user_is_kept(
    store: StoreView,
    provider: ProviderView,
    state: Seq<char>,
    code: Seq<char>,
    seed: SessionSeedView,
)
    requires
        store.wf(),
        store.has_state(state),
        provider.user() matches Ok(info) && info.verified_email && store.find_user(info.email)
            is Some,
        seed.now + SESSION_LIFETIME <= i64::MAX,
    ensures
        ({
            let (after, result) = login_outcome(store, provider, Some(state), Some(code), seed);
            &&& result is Ok
            &&& after.users == store.users
            &&& after.sessions == store.sessions.push(after.sessions.last())
            &&& Some(after.sessions.last().user_id) == store.find_user(
                provider.user()->Ok_0.email,
            )
        }),
{
    lemma_valid_callback_succeeds(store, provider, state, code, seed);
    lemma_take_state_removes(store, state);
    let taken = store.take_state(state).0;
    let info = provider.user()->Ok_0;
    assert(taken.find_user(info.email) == store.find_user(info.email));
}

/// A second login finds the user of the first. When two callbacks for the same email
/// address succeed one after the other, the second stores no user: the store holds one
/// user with that address, and both sessions belong to that user.
pub proof fn lemma_second_login_reuses_user(
    store: StoreView,
    first_provider: ProviderView,
    first_state: Option<Seq<char>>,
    first_code: Option<Seq<char>>,
    first_seed: SessionSeedView,
    second_provider: ProviderView,
    second_state: Option<Seq<char>>,
    second_code: Option<Seq<char>>,
    second_seed: SessionSeedView,
)
    requires
        store.wf(),
        first_provider.user() is Ok,
        second_provider.user() is Ok,
        first_provider.user()->Ok_0.email == second_provider.user()->Ok_0.email,
        login_outcome(store, first_provider, first_state, first_code, first_seed).1 is Ok,
        login_outcome(
            login_outcome(store, first_provider, first_state, first_code, first_seed).0,
            second_provider,
            second_state,
            second_code,
            second_seed,
        ).1 is Ok,
    ensures
        ({
            let email = first_provider.user()->Ok_0.email;
            let first = login_outcome(store, first_provider, first_state, first_code, first_seed).0;
            let second = login_outcome(
                first,
                second_provider,
                second_state,
                second_code,
                second_seed,
            ).0;
            &&& second.users == first.users
            &&& second.sessions.last().user_id == first.sessions.last().user_id
            &&& second.find_user(email) == Some(first.sessions.last().user_id)
            &&& forall|i: int, j: int|
                0 <= i < second.users.len() && 0 <= j < second.users.len() && (
                #[trigger] second.users[i]).email == email && (#[trigger] second.users[j]).email
                    == email ==> i == j
        }),
{
    let email = first_provider.user()->Ok_0.email;
    let first = login_outcome(store, first_provider, first_state, first_code, first_seed).0;
    lemma_login_keeps_store(store, first_provider, first_state, first_code, first_seed);
    lemma_session_on_success_only(store, first_provider, first_state, first_code, first_seed);
    lemma_session_on_success_only(first, second_provider, second_state, second_code, second_seed);
    lemma_take_state_removes(first, second_state->0);
    let taken = first.take_state(second_state->0).0;
    assert(taken.find_user(email) == first.find_user(email));
    lemma_upsert_user(taken, second_provider.user()->Ok_0, second_seed.now);
}

fn copy_of(info: &UserInfo) -> (copy: UserInfo)
    ensures
        copy@ == info@,
{
    UserInfo {
        email: info.email.clone(),
        verified_email: info.verified_email,
        given_name: info.given_name.clone(),
        family_name: info.family_name.clone(),
    }
}

fn copy_of_session(session: &Session) -> (copy: Session)
    ensures
        copy@ == session@,
{
    Session {
        session_token_p1: session.session_token_p1.clone(),
        session_token_p2: session.session_token_p2.clone(),
        user_id: session.user_id,
        created_at: session.created_at,
        expires_at: session.expires_at,
    }
}

fn failure_or(failure: &Option<String>, answer: Answer) -> (r: Answer)
    ensures
        r@ == match failure.deep_view() {
            Some(text) => AnswerView::Failure(text),
            None => answer@,
        },
{
    match failure {
        Some(text) => Answer::Failure(text.clone()),
        None => answer,
    }
}

impl LoginStore {
    /// Carries out `request` at time `now`: on this store where it asks for a record, by
    /// what `provider` says where it asks the provider.
    pub fn answer(&mut self, provider: &Provider, request: &Request, now: i64) -> (answer: Option<
        Answer,
    >)
        requires
            old(self)@.wf(),
        ensures
            final(self)@.wf(),
            (final(self)@, answer.deep_view()) == answered(
                old(self)@,
                provider@,
                request@,
                now as int,
            ),
    {
        match request {
            Request::TakeState { csrf_state } => Some(Answer::State(self.take_state(csrf_state))),
            Request::ExchangeCode { code } => Some(
                failure_or(&provider.exchange_failure, Answer::Tokens),
            ),
            Request::VerifyIdToken { nonce } => Some(
                failure_or(&provider.verification_failure, Answer::Claims),
            ),
            Request::FetchUserInfo => Some(
                match &provider.user_info {
                    Ok(info) => Answer::UserInfo(copy_of(info)),
                    Err(text) => Answer::Failure(text.clone()),
                },
            ),
            Request::FindUser { email } => Some(Answer::User(self.find_user(email))),
            Request::CreateUser { email, first_name, last_name } => {
                match self.create_user(email.clone(), first_name.clone(), last_name.clone(), now) {
                    Ok(id) => Some(Answer::NewUser(id)),
                    Err(error) => Some(Answer::Failure(error.message())),
                }
            },
            Request::CreateSession { session } => {
                self.insert_session(copy_of_session(session));
                Some(Answer::SessionStored)
            },
            Request::Finish { .. } => None,
            Request::Abort { .. } => None,
        }
    }

    fn turn(&mut self, provider: &Provider, progress: Progress, request: Request, seed: &SessionSeed) -> (step: (
        Progress,
        Request,
    ))
        requires
            old(self)@.wf(),
        ensures
            final(self)@.wf(),
            (final(self)@, step.0@, step.1@) == turned(
                old(self)@,
                provider@,
                progress@,
                request@,
                seed@,
            ),
    {
        match self.answer(provider, &request, seed.now) {
            Some(answer) => advance_with(progress, answer, seed),
            None => (progress, request),
        }
    }

    /// Runs the callback with the parameters `state` and `code` on this store, asking
    /// `provider` where the login asks the identity provider, and issuing the session from
    /// `seed`.
    pub fn callback(
        &mut self,
        provider: &Provider,
        state: Option<String>,
        code: Option<String>,
        seed: &SessionSeed,
    ) -> (r: Result<(String, String), LoginError>)
        requires
            old(self)@.wf(),
        ensures
            final(self)@.wf(),
            final(self)@ == login_outcome(
                old(self)@,
                provider@,
                state.deep_view(),
                code.deep_view(),
                seed@,
            ).0,
            match r {
                Ok((token, return_url)) => login_outcome(
                    old(self)@,
                    provider@,
                    state.deep_view(),
                    code.deep_view(),
                    seed@,
                ).1 == Ok::<(Seq<char>, Seq<char>), LoginErrorView>((token@, return_url@)),
                Err(error) => login_outcome(
                    old(self)@,
                    provider@,
                    state.deep_view(),
                    code.deep_view(),
                    seed@,
                ).1 == Err::<(Seq<char>, Seq<char>), LoginErrorView>(error@),
            },
    {
        let (state, code) = match callback_params(state, code) {
            Ok(params) => params,
            Err(error) => {
                return Err(error);
            },
        };
        let (progress, request) = begin(state, code);
        let (progress, request) = self.turn(provider, progress, request, seed);
        let (progress, request) = self.turn(provider, progress, request, seed);
        let (progress, request) = self.turn(provider, progress, request, seed);
        let (progress, request) = self.turn(provider, progress, request, seed);
        let (progress, request) = self.turn(provider, progress, request, seed);
        let (progress, request) = self.turn(provider, progress, request, seed);
        let (progress, request) = self.turn(provider, progress, request, seed);
        match request {
            Request::Finish { session_token, return_url } => Ok((session_token, return_url)),
            Request::Abort { error } => Err(error),
            _ => Err(LoginError::UnexpectedReply),
        }
    }
}

} // verus!
