//! The callback of a login as a sequence of questions and answers. Whoever drives a login
//! asks the record store and the provider what a `Request` names and hands the answer to
//! `advance`, until the request is `Finish` or `Abort`.
use crate::auth::google::{LoginError, LoginErrorView, UserInfo, UserInfoView};
use crate::auth::session::{
    is_fresh_seed, issued, token_of, Session, SessionSeed, SessionSeedView, SessionView,
};
use vstd::prelude::*;

verus! {

/// What a stored login attempt gives back when its state is redeemed.
#[derive(Debug)]
pub struct StateRow {
    pub nonce: String,
    pub return_url: String,
}

/// `StateRow` as plain values, for contracts.
pub struct StateRowView {
    pub nonce: Seq<char>,
    pub return_url: Seq<char>,
}

impl View for StateRow {
    type V = StateRowView;

    open spec fn view(&self) -> StateRowView {
        StateRowView { nonce: self.nonce@, return_url: self.return_url@ }
    }
}

impl DeepView for StateRow {
    type V = StateRowView;

    open spec fn deep_view(&self) -> StateRowView {
        self@
    }
}

/// How far a callback has come, with what it still needs from the steps behind it.
#[derive(Debug)]
pub enum Progress {
    AwaitingState { code: String },
    AwaitingTokens { nonce: String, return_url: String },
    AwaitingClaims { return_url: String },
    AwaitingUserInfo { return_url: String },
    AwaitingUser { return_url: String, info: UserInfo },
    AwaitingNewUser { return_url: String },
    AwaitingSession { return_url: String, session_token: String },
    Finished,
}

/// `Progress` as plain values, for contracts.
pub enum ProgressView {
    AwaitingState { code: Seq<char> },
    AwaitingTokens { nonce: Seq<char>, return_url: Seq<char> },
    AwaitingClaims { return_url: Seq<char> },
    AwaitingUserInfo { return_url: Seq<char> },
    AwaitingUser { return_url: Seq<char>, info: UserInfoView },
    AwaitingNewUser { return_url: Seq<char> },
    AwaitingSession { return_url: Seq<char>, session_token: Seq<char> },
    Finished,
}

impl View for Progress {
    type V = ProgressView;

    open spec fn view(&self) -> ProgressView {
        match self {
            Progress::AwaitingState { code } => ProgressView::AwaitingState { code: code@ },
            Progress::AwaitingTokens { nonce, return_url } => ProgressView::AwaitingTokens {
                nonce: nonce@,
                return_url: return_url@,
            },
            Progress::AwaitingClaims { return_url } => ProgressView::AwaitingClaims {
                return_url: return_url@,
            },
            Progress::AwaitingUserInfo { return_url } => ProgressView::AwaitingUserInfo {
                return_url: return_url@,
            },
            Progress::AwaitingUser { return_url, info } => ProgressView::AwaitingUser {
                return_url: return_url@,
                info: info@,
            },
            Progress::AwaitingNewUser { return_url } => ProgressView::AwaitingNewUser {
                return_url: return_url@,
            },
            Progress::AwaitingSession { return_url, session_token } => {
                ProgressView::AwaitingSession {
                    return_url: return_url@,
                    session_token: session_token@,
                }
            },
            Progress::Finished => ProgressView::Finished,
        }
    }
}

/// What is to be done next for a callback.
#[derive(Debug)]
pub enum Request {
    /// Read and delete, in one step, the login attempt stored under `csrf_state`.
    TakeState { csrf_state: String },
    /// Redeem the authorization code at the provider's token endpoint.
    ExchangeCode { code: String },
    /// Check the identity token's signature and claims against `nonce`.
    VerifyIdToken { nonce: String },
    /// Fetch the user-info resource with the access token.
    FetchUserInfo,
    /// Look up the user with this email address.
    FindUser { email: String },
    /// Store a new user.
    CreateUser { email: String, first_name: String, last_name: String },
    /// Store this session.
    CreateSession { session: Session },
    /// The login is done: hand over the token and send the user to `return_url`.
    Finish { session_token: String, return_url: String },
    /// The login failed.
    Abort { error: LoginError },
}

/// `Request` as plain values, for contracts.
pub enum RequestView {
    TakeState { csrf_state: Seq<char> },
    ExchangeCode { code: Seq<char> },
    VerifyIdToken { nonce: Seq<char> },
    FetchUserInfo,
    FindUser { email: Seq<char> },
    CreateUser { email: Seq<char>, first_name: Seq<char>, last_name: Seq<char> },
    CreateSession { session: SessionView },
    Finish { session_token: Seq<char>, return_url: Seq<char> },
    Abort { error: LoginErrorView },
}

impl View for Request {
    type V = RequestView;

    open spec fn view(&self) -> RequestView {
        match self {
            Request::TakeState { csrf_state } => RequestView::TakeState {
                csrf_state: csrf_state@,
            },
            Request::ExchangeCode { code } => RequestView::ExchangeCode { code: code@ },
            Request::VerifyIdToken { nonce } => RequestView::VerifyIdToken { nonce: nonce@ },
            Request::FetchUserInfo => RequestView::FetchUserInfo,
            Request::FindUser { email } => RequestView::FindUser { email: email@ },
            Request::CreateUser { email, first_name, last_name } => RequestView::CreateUser {
                email: email@,
                first_name: first_name@,
                last_name: last_name@,
            },
            Request::CreateSession { session } => RequestView::CreateSession {
                session: session@,
            },
            Request::Finish { session_token, return_url } => RequestView::Finish {
                session_token: session_token@,
                return_url: return_url@,
            },
            Request::Abort { error } => RequestView::Abort { error: error@ },
        }
    }
}

/// The answer to a `Request`.
#[derive(Debug)]
pub enum Answer {
    /// To `TakeState`: the attempt that was stored under the state, if there was one.
    State(Option<StateRow>),
    /// To `ExchangeCode`: the provider issued tokens.
    Tokens,
    /// To `VerifyIdToken`: signature and claims hold.
    Claims,
    /// To `FetchUserInfo`.
    UserInfo(UserInfo),
    /// To `FindUser`: the identifier of the user with that email address, if there is one.
    User(Option<i64>),
    /// To `CreateUser`: the identifier of the new user.
    NewUser(i64),
    /// To `CreateSession`.
    SessionStored,
    /// To any request: it could not be carried out.
    Failure(String),
}

/// `Answer` as plain values, for contracts.
pub enum AnswerView {
    State(Option<StateRowView>),
    Tokens,
    Claims,
    UserInfo(UserInfoView),
    User(Option<int>),
    NewUser(int),
    SessionStored,
    Failure(Seq<char>),
}

impl DeepView for Answer {
    type V = AnswerView;

    open spec fn deep_view(&self) -> AnswerView {
        self@
    }
}

impl View for Answer {
    type V = AnswerView;

    open spec fn view(&self) -> AnswerView {
        match self {
            Answer::State(row) => AnswerView::State(row.deep_view()),
            Answer::Tokens => AnswerView::Tokens,
            Answer::Claims => AnswerView::Claims,
            Answer::UserInfo(info) => AnswerView::UserInfo(info@),
            Answer::User(id) => AnswerView::User(
                match id {
                    Some(id) => Some(*id as int),
                    None => None,
                },
            ),
            Answer::NewUser(id) => AnswerView::NewUser(*id as int),
            Answer::SessionStored => AnswerView::SessionStored,
            Answer::Failure(text) => AnswerView::Failure(text@),
        }
    }
}

/// The end of a callback that failed with `error`.
pub open spec fn aborted(error: LoginErrorView) -> (ProgressView, RequestView) {
    (ProgressView::Finished, RequestView::Abort { error })
}

/// The step that hands out the session of user `id`.
pub open spec fn session_step(return_url: Seq<char>, id: int, seed: SessionSeedView) -> (
    ProgressView,
    RequestView,
) {
    match issued(id, seed) {
        Some(session) => (
            ProgressView::AwaitingSession {
                return_url,
                session_token: token_of(seed.first, seed.second),
            },
            RequestView::CreateSession { session },
        ),
        None => aborted(LoginErrorView::ClockOutOfRange),
    }
}

/// The first step of a callback with the parameters `state` and `code`.
pub open spec fn first_step(state: Seq<char>, code: Seq<char>) -> (ProgressView, RequestView) {
    (ProgressView::AwaitingState { code }, RequestView::TakeState { csrf_state: state })
}

/// The step that follows `progress` on `answer`. A session is issued from `seed`, and only
/// to a user whose email address the provider has verified.
pub open spec fn next_step(progress: ProgressView, answer: AnswerView, seed: SessionSeedView) -> (
    ProgressView,
    RequestView,
) {
    match (progress, answer) {
        (_, AnswerView::Failure(text)) => aborted(LoginErrorView::Upstream(text)),
        (ProgressView::AwaitingState { code }, AnswerView::State(None)) => aborted(
            LoginErrorView::InvalidState,
        ),
        (ProgressView::AwaitingState { code }, AnswerView::State(Some(row))) => (
            ProgressView::AwaitingTokens { nonce: row.nonce, return_url: row.return_url },
            RequestView::ExchangeCode { code },
        ),
        (ProgressView::AwaitingTokens { nonce, return_url }, AnswerView::Tokens) => (
            ProgressView::AwaitingClaims { return_url },
            RequestView::VerifyIdToken { nonce },
        ),
        (ProgressView::AwaitingClaims { return_url }, AnswerView::Claims) => (
            ProgressView::AwaitingUserInfo { return_url },
            RequestView::FetchUserInfo,
        ),
        (ProgressView::AwaitingUserInfo { return_url }, AnswerView::UserInfo(info)) => {
            if info.verified_email {
                (
                    ProgressView::AwaitingUser { return_url, info },
                    RequestView::FindUser { email: info.email },
                )
            } else {
                aborted(LoginErrorView::EmailNotVerified)
            }
        },
        (ProgressView::AwaitingUser { return_url, info }, AnswerView::User(Some(id))) => {
            session_step(return_url, id, seed)
        },
        (ProgressView::AwaitingUser { return_url, info }, AnswerView::User(None)) => (
            ProgressView::AwaitingNewUser { return_url },
            RequestView::CreateUser {
                email: info.email,
                first_name: info.given_name,
                last_name: info.family_name,
            },
        ),
        (ProgressView::AwaitingNewUser { return_url }, AnswerView::NewUser(id)) => session_step(
            return_url,
            id,
            seed,
        ),
        (ProgressView::AwaitingSession { return_url, session_token }, AnswerView::SessionStored) => (
            ProgressView::Finished,
            RequestView::Finish { session_token, return_url },
        ),
        _ => aborted(LoginErrorView::UnexpectedReply),
    }
}

/// Whether the step after `progress` on `answer` issues a session.
pub open spec fn issues_session(progress: ProgressView, answer: AnswerView) -> bool {
    ||| progress is AwaitingUser && answer matches AnswerView::User(Some(_))
    ||| progress is AwaitingNewUser && answer is NewUser
}

/// Starts the callback that came with `state` and `code`.
pub fn begin(state: String, code: String) -> (step: (Progress, Request))
    ensures
        (step.0@, step.1@) == first_step(state@, code@),
{
    (Progress::AwaitingState { code }, Request::TakeState { csrf_state: state })
}

fn abort(error: LoginError) -> (step: (Progress, Request))
    ensures
        (step.0@, step.1@) == aborted(error@),
{
    (Progress::Finished, Request::Abort { error })
}

fn hand_out_session(return_url: String, id: i64, seed: &SessionSeed) -> (step: (Progress, Request))
    ensures
        (step.0@, step.1@) == session_step(return_url@, id as int, seed@),
{
    match Session::issue(id, seed) {
        Some(session) => {
            let session_token = session.token();
            (
                Progress::AwaitingSession { return_url, session_token },
                Request::CreateSession { session },
            )
        },
        None => abort(LoginError::ClockOutOfRange),
    }
}

/// The step that follows `progress` on `answer`, with `seed` for the session if this step
/// issues one.
pub fn advance_with(progress: Progress, answer: Answer, seed: &SessionSeed) -> (step: (
    Progress,
    Request,
))
    ensures
        (step.0@, step.1@) == next_step(progress@, answer@, seed@),
{
    match answer {
        Answer::Failure(text) => abort(LoginError::Upstream(text)),
        Answer::State(row) => match progress {
            Progress::AwaitingState { code } => match row {
                None => abort(LoginError::InvalidState),
                Some(row) => (
                    Progress::AwaitingTokens { nonce: row.nonce, return_url: row.return_url },
                    Request::ExchangeCode { code },
                ),
            },
            _ => abort(LoginError::UnexpectedReply),
        },
        Answer::Tokens => match progress {
            Progress::AwaitingTokens { nonce, return_url } => (
                Progress::AwaitingClaims { return_url },
                Request::VerifyIdToken { nonce },
            ),
            _ => abort(LoginError::UnexpectedReply),
        },
        Answer::Claims => match progress {
            Progress::AwaitingClaims { return_url } => (
                Progress::AwaitingUserInfo { return_url },
                Request::FetchUserInfo,
            ),
            _ => abort(LoginError::UnexpectedReply),
        },
        Answer::UserInfo(info) => match progress {
            Progress::AwaitingUserInfo { return_url } => {
                if info.verified_email {
                    let email = info.email.clone();
                    (Progress::AwaitingUser { return_url, info }, Request::FindUser { email })
                } else {
                    abort(LoginError::EmailNotVerified)
                }
            },
            _ => abort(LoginError::UnexpectedReply),
        },
        Answer::User(found) => match progress {
            Progress::AwaitingUser { return_url, info } => match found {
                Some(id) => hand_out_session(return_url, id, seed),
                None => (
                    Progress::AwaitingNewUser { return_url },
                    Request::CreateUser {
                        email: info.email,
                        first_name: info.given_name,
                        last_name: info.family_name,
                    },
                ),
            },
            _ => abort(LoginError::UnexpectedReply),
        },
        Answer::NewUser(id) => match progress {
            Progress::AwaitingNewUser { return_url } => hand_out_session(return_url, id, seed),
            _ => abort(LoginError::UnexpectedReply),
        },
        Answer::SessionStored => match progress {
            Progress::AwaitingSession { return_url, session_token } => (
                Progress::Finished,
                Request::Finish { session_token, return_url },
            ),
            _ => abort(LoginError::UnexpectedReply),
        },
    }
}

fn wants_session(progress: &Progress, answer: &Answer) -> (r: bool)
    ensures
        r == issues_session(progress@, answer@),
{
    match (progress, answer) {
        (Progress::AwaitingUser { .. }, Answer::User(Some(_))) => true,
        (Progress::AwaitingNewUser { .. }, Answer::NewUser(_)) => true,
        _ => false,
    }
}

/// The step that follows `progress` on `answer`. Where it issues a session, the token halves
/// are fresh random identifiers in the shape that `uuid` writes, and the time of issue is
/// read from the clock; which they are is open, all else is as `next_step` says.
pub fn advance(progress: Progress, answer: Answer) -> (step: (Progress, Request))
    ensures
        exists|seed: SessionSeedView|
            {
                &&& issues_session(progress@, answer@) ==> is_fresh_seed(seed)
                &&& (step.0@, step.1@) == #[trigger] next_step(progress@, answer@, seed)
            },
        !issues_session(progress@, answer@) ==> forall|seed: SessionSeedView|
            (step.0@, step.1@) == next_step(progress@, answer@, seed),
{
    let seed = if wants_session(&progress, &answer) {
        SessionSeed::fresh()
    } else {
        SessionSeed { first: String::new(), second: String::new(), now: 0 }
    };
    let step = advance_with(progress, answer, &seed);
    assert((step.0@, step.1@) == next_step(progress@, answer@, seed@));
    step
}

} // verus!
