//! Sessions handed out after a login.
use vstd::prelude::*;
use vstd::string::*;

verus! {

/// Seconds a session stays valid after it was issued.
pub const SESSION_LIFETIME: i64 = 86400;

/// A login session as it is stored: the two halves of its token, its user and its lifetime.
#[derive(Debug)]
pub struct Session {
    pub session_token_p1: String,
    pub session_token_p2: String,
    pub user_id: i64,
    pub created_at: i64,
    pub expires_at: i64,
}

/// `Session` as plain values, for contracts.
pub struct SessionView {
    pub session_token_p1: Seq<char>,
    pub session_token_p2: Seq<char>,
    pub user_id: int,
    pub created_at: int,
    pub expires_at: int,
}

impl View for Session {
    type V = SessionView;

    open spec fn view(&self) -> SessionView {
        SessionView {
            session_token_p1: self.session_token_p1@,
            session_token_p2: self.session_token_p2@,
            user_id: self.user_id as int,
            created_at: self.created_at as int,
            expires_at: self.expires_at as int,
        }
    }
}

impl DeepView for Session {
    type V = SessionView;

    open spec fn deep_view(&self) -> SessionView {
        self@
    }
}

/// What a session is issued from: two random token halves and the time of issue.
#[derive(Debug)]
pub struct SessionSeed {
    pub first: String,
    pub second: String,
    pub now: i64,
}

/// `SessionSeed` as plain values, for contracts.
pub struct SessionSeedView {
    pub first: Seq<char>,
    pub second: Seq<char>,
    pub now: int,
}

impl View for SessionSeed {
    type V = SessionSeedView;

    open spec fn view(&self) -> SessionSeedView {
        SessionSeedView { first: self.first@, second: self.second@, now: self.now as int }
    }
}

/// The bearer token of a session: its two halves with `_` between them.
pub open spec fn token_of(first: Seq<char>, second: Seq<char>) -> Seq<char> {
    first + seq!['_'] + second
}

/// The session that `seed` gives to `user_id`, unless its end lies beyond the clock's range.
pub open spec fn issued(user_id: int, seed: SessionSeedView) -> Option<SessionView> {
    if seed.now + SESSION_LIFETIME <= i64::MAX {
        Some(
            SessionView {
                session_token_p1: seed.first,
                session_token_p2: seed.second,
                user_id,
                created_at: seed.now,
                expires_at: seed.now + SESSION_LIFETIME,
            },
        )
    } else {
        None
    }
}

/// Text in the shape `xxxxxxxx-xxxx-xxxx-xxxx-xxxxxxxxxxxx` of lower-case hexadecimal digits.
pub open spec fn is_hyphenated_uuid(text: Seq<char>) -> bool {
    &&& text.len() == 36
    &&& forall|i: int|
        0 <= i < 36 ==> if i == 8 || i == 13 || i == 18 || i == 23 {
            #[trigger] text[i] == '-'
        } else {
            ('0' <= text[i] <= '9') || ('a' <= text[i] <= 'f')
        }
}

/// Whether both token halves of `seed` are identifiers in the shape that `uuid` writes.
pub open spec fn is_fresh_seed(seed: SessionSeedView) -> bool {
    is_hyphenated_uuid(seed.first) && is_hyphenated_uuid(seed.second)
}

/// Calls `uuid::Uuid::new_v4` and renders the identifier with its `Display` impl.
/// Trusted: the text is in the hyphenated lower-case form that `uuid` documents for
/// `Display`. Which identifier comes back is random and not stated. The call can panic
/// only where the operating system gives no random bytes.
#[verifier::external_body]
fn random_uuid_text() -> (text: String)
    ensures
        is_hyphenated_uuid(text@),
{
    uuid::Uuid::new_v4().to_string()
}

/// Calls `chrono::Utc::now` and takes its `timestamp`: seconds since the Unix epoch.
/// Trusted, with nothing stated of the value: it is the machine's clock. `chrono` panics
/// where the system clock stands before 1970; no argument decides that.
#[verifier::external_body]
fn unix_now() -> i64 {
    chrono::Utc::now().timestamp()
}

impl SessionSeed {
    /// Two fresh random identifiers and the current time.
    pub fn fresh() -> (seed: SessionSeed)
        ensures
            is_fresh_seed(seed@),
    {
        let first = random_uuid_text();
        let second = random_uuid_text();
        SessionSeed { first, second, now: unix_now() }
    }
}

impl Session {
    /// Issues the session of `user_id` from `seed`: it ends `SESSION_LIFETIME` seconds after
    /// `seed.now`. `None` when that end is past the last second an `i64` can hold.
    pub fn issue(user_id: i64, seed: &SessionSeed) -> (session: Option<Session>)
        ensures
            session.deep_view() == issued(user_id as int, seed@),
            session matches Some(s) ==> s.expires_at - s.created_at == SESSION_LIFETIME,
    {
        match seed.now.checked_add(SESSION_LIFETIME) {
            Some(expires_at) => Some(
                Session {
                    session_token_p1: seed.first.clone(),
                    session_token_p2: seed.second.clone(),
                    user_id,
                    created_at: seed.now,
                    expires_at,
                },
            ),
            None => None,
        }
    }

    /// The bearer token: both halves with `_` between them.
    pub fn token(&self) -> (token: String)
        ensures
            token@ == token_of(self.session_token_p1@, self.session_token_p2@),
    {
        let mut token = self.session_token_p1.clone();
        token.append("_");
        token.append(self.session_token_p2.as_str());
        proof {
            reveal_strlit("_");
            assert("_"@ == seq!['_']);
        }
        token
    }
}

} // verus!
