use bookclub::auth::callback::Provider;
use bookclub::auth::flow::{advance, advance_with, begin, Answer, Progress, Request, StateRow};
use bookclub::auth::google::{
    authorize_url, callback_params, login_url, redirect_url, scopes, session_cookie,
    user_info_url, LoginError, OAuthState, Registration, UserInfo, ISSUER_URL,
};
use bookclub::reply::Reply;
use bookclub::stamp::Stamp;
use bookclub::auth::session::{Session, SessionSeed, SESSION_LIFETIME};
use bookclub::auth::store::{LoginStore, StoreError};

fn attempt(csrf: &str, nonce: &str, return_url: &str) -> OAuthState {
    OAuthState {
        csrf_state: csrf.to_string(),
        nonce: nonce.to_string(),
        return_url: return_url.to_string(),
    }
}

fn info(email: &str, verified: bool) -> UserInfo {
    UserInfo {
        email: email.to_string(),
        verified_email: verified,
        given_name: "Ada".to_string(),
        family_name: "Lovelace".to_string(),
    }
}

fn provider(email: &str, verified: bool) -> Provider {
    Provider { exchange_failure: None, verification_failure: None, user_info: Ok(info(email, verified)) }
}

fn seed(first: &str, second: &str, now: i64) -> SessionSeed {
    SessionSeed { first: first.to_string(), second: second.to_string(), now }
}

fn some(text: &str) -> Option<String> {
    Some(text.to_string())
}

fn is_hyphenated_uuid(text: &str) -> bool {
    text.len() == 36
        && text.char_indices().all(|(i, c)| match i {
            8 | 13 | 18 | 23 => c == '-',
            _ => c.is_ascii_digit() || ('a'..='f').contains(&c),
        })
}

fn is_random_token(text: &str) -> bool {
    text.len() == 22 && text.chars().all(|c| c.is_ascii_alphanumeric() || c == '-' || c == '_')
}

#[test]
fn state_is_consumed_once_and_replay_fails() {
    let mut store = LoginStore::new();
    store.insert_state(attempt("s1", "n1", "/home")).unwrap();
    let first = store.callback(
        &provider("ada@example.com", true),
        some("s1"),
        some("code"),
        &seed("p1", "p2", 1_000),
    );
    assert_eq!(first.unwrap(), ("p1_p2".to_string(), "/home".to_string()));
    assert!(store.states.is_empty());
    let users = store.users.len();
    let sessions = store.sessions.len();
    let replay = store.callback(
        &provider("ada@example.com", true),
        some("s1"),
        some("code"),
        &seed("p3", "p4", 2_000),
    );
    assert!(matches!(replay, Err(LoginError::InvalidState)));
    assert_eq!(store.users.len(), users);
    assert_eq!(store.sessions.len(), sessions);
}

#[test]
fn state_is_consumed_even_when_the_login_fails_later() {
    let mut store = LoginStore::new();
    store.insert_state(attempt("s1", "n1", "/home")).unwrap();
    store.insert_state(attempt("s2", "n2", "/away")).unwrap();
    let refused = Provider {
        exchange_failure: some("token endpoint said no"),
        verification_failure: None,
        user_info: Ok(info("ada@example.com", true)),
    };
    match store.callback(&refused, some("s1"), some("code"), &seed("a", "b", 0)) {
        Err(LoginError::Upstream(text)) => assert_eq!(text, "token endpoint said no"),
        other => panic!("{:?}", other),
    }
    assert_eq!(store.states.len(), 1);
    assert_eq!(store.states[0].csrf_state, "s2");
    assert!(store.sessions.is_empty());
    assert!(store.users.is_empty());
}

#[test]
fn unverified_email_gets_no_session_and_no_user() {
    let mut store = LoginStore::new();
    store.insert_state(attempt("s1", "n1", "/home")).unwrap();
    let r = store.callback(
        &provider("ada@example.com", false),
        some("s1"),
        some("code"),
        &seed("p1", "p2", 1_000),
    );
    match r {
        Err(error @ LoginError::EmailNotVerified) => {
            assert_eq!(error.message(), "OAuth: email address is not verified")
        }
        other => panic!("{:?}", other),
    }
    assert!(store.sessions.is_empty());
    assert!(store.users.is_empty());
}

#[test]
fn second_login_reuses_the_user() {
    let mut store = LoginStore::new();
    store.insert_state(attempt("s1", "n1", "/one")).unwrap();
    store.insert_state(attempt("s2", "n2", "/two")).unwrap();
    let first =
        store.callback(&provider("ada@example.com", true), some("s1"), some("c1"), &seed("a", "b", 10));
    assert_eq!(first.unwrap().1, "/one");
    let second =
        store.callback(&provider("ada@example.com", true), some("s2"), some("c2"), &seed("c", "d", 20));
    assert_eq!(second.unwrap(), ("c_d".to_string(), "/two".to_string()));
    assert_eq!(store.users.len(), 1);
    assert_eq!(store.users[0].id, 1);
    assert_eq!(store.users[0].email, "ada@example.com");
    assert_eq!(store.users[0].first_name, "Ada");
    assert_eq!(store.users[0].last_name, "Lovelace");
    assert_eq!(store.users[0].created_at, Stamp::at(10));
    assert_eq!(store.users[0].updated_at, Stamp::at(10));
    assert_eq!(store.sessions.len(), 2);
    assert_eq!(store.sessions[0].user_id, 1);
    assert_eq!(store.sessions[1].user_id, 1);
}

#[test]
fn other_email_gets_another_user() {
    let mut store = LoginStore::new();
    store.insert_state(attempt("s1", "n1", "/one")).unwrap();
    store.insert_state(attempt("s2", "n2", "/two")).unwrap();
    store
        .callback(&provider("ada@example.com", true), some("s1"), some("c1"), &seed("a", "b", 10))
        .unwrap();
    store
        .callback(&provider("bob@example.com", true), some("s2"), some("c2"), &seed("c", "d", 20))
        .unwrap();
    assert_eq!(store.users.len(), 2);
    assert_eq!(store.users[1].id, 2);
    assert_eq!(store.sessions[1].user_id, 2);
    assert_eq!(store.find_user(&"bob@example.com".to_string()), Some(2));
    assert_eq!(store.find_user(&"eve@example.com".to_string()), None);
}

#[test]
fn session_lasts_a_day_exactly() {
    assert_eq!(SESSION_LIFETIME, 86_400);
    let session = Session::issue(7, &seed("p1", "p2", 1_700_000_000)).unwrap();
    assert_eq!(session.expires_at - session.created_at, 86_400);
    assert_eq!(session.created_at, 1_700_000_000);
    assert_eq!(session.expires_at, 1_700_086_400);
    assert_eq!(session.user_id, 7);
    assert_eq!(session.session_token_p1, "p1");
    assert_eq!(session.session_token_p2, "p2");
    assert_eq!(session.token(), "p1_p2");
    let mut store = LoginStore::new();
    store.insert_state(attempt("s1", "n1", "/home")).unwrap();
    store
        .callback(&provider("ada@example.com", true), some("s1"), some("c"), &seed("a", "b", 500))
        .unwrap();
    assert_eq!(store.sessions[0].expires_at - store.sessions[0].created_at, 86_400);
}

#[test]
fn session_is_not_issued_past_the_end_of_time() {
    assert!(Session::issue(1, &seed("a", "b", i64::MAX - 86_400)).is_some());
    assert!(Session::issue(1, &seed("a", "b", i64::MAX - 86_399)).is_none());
    let mut store = LoginStore::new();
    store.insert_state(attempt("s1", "n1", "/home")).unwrap();
    let r = store.callback(
        &provider("ada@example.com", true),
        some("s1"),
        some("c"),
        &seed("a", "b", i64::MAX),
    );
    match r {
        Err(error @ LoginError::ClockOutOfRange) => {
            assert_eq!(error.message(), "OAuth: session lifetime is out of range")
        }
        other => panic!("{:?}", other),
    }
    assert!(store.sessions.is_empty());
    assert_eq!(store.users.len(), 1);
}

#[test]
fn fresh_seed_has_two_uuids_and_the_time() {
    let seed = SessionSeed::fresh();
    assert!(is_hyphenated_uuid(&seed.first), "{}", seed.first);
    assert!(is_hyphenated_uuid(&seed.second), "{}", seed.second);
    assert_ne!(seed.first, seed.second);
    assert!(seed.now > 1_600_000_000);
    assert!(!seed.first.contains('_'));
}

#[test]
fn fresh_attempt_has_random_tokens() {
    let one = OAuthState::fresh("/back");
    let two = OAuthState::fresh("/back");
    assert_eq!(one.return_url, "/back");
    assert!(is_random_token(&one.csrf_state), "{}", one.csrf_state);
    assert!(is_random_token(&one.nonce), "{}", one.nonce);
    assert_ne!(one.csrf_state, one.nonce);
    assert_ne!(one.csrf_state, two.csrf_state);
    assert_ne!(one.nonce, two.nonce);
}

#[test]
fn callback_needs_state_and_code() {
    assert!(matches!(callback_params(None, some("c")), Err(LoginError::MissingState)));
    assert!(matches!(callback_params(None, None), Err(LoginError::MissingState)));
    assert!(matches!(callback_params(some("s"), None), Err(LoginError::MissingCode)));
    assert_eq!(callback_params(some("s"), some("c")).unwrap(), ("s".to_string(), "c".to_string()));
    assert_eq!(LoginError::MissingState.message(), "OAuth: without state");
    assert_eq!(LoginError::MissingCode.message(), "OAuth: without code");
    assert_eq!(LoginError::InvalidState.message(), "OAuth: invalid or expired state");
    assert_eq!(LoginError::UnexpectedReply.message(), "OAuth: unexpected reply");
    assert_eq!(LoginError::Upstream("boom".to_string()).message(), "boom");
    let mut store = LoginStore::new();
    store.insert_state(attempt("s1", "n1", "/home")).unwrap();
    let r = store.callback(&provider("a@b.c", true), some("s1"), None, &seed("a", "b", 0));
    assert!(matches!(r, Err(LoginError::MissingCode)));
    assert_eq!(store.states.len(), 1);
    let r = store.callback(&provider("a@b.c", true), None, some("c"), &seed("a", "b", 0));
    assert!(matches!(r, Err(LoginError::MissingState)));
    assert_eq!(store.states.len(), 1);
}

#[test]
fn cookie_and_redirect_texts() {
    assert_eq!(
        session_cookie("p1_p2"),
        "session_token=p1_p2; path=/; httponly; secure; samesite=strict"
    );
    assert_eq!(redirect_url("http://127.0.0.1:3000"), "http://127.0.0.1:3000/auth/google/callback");
}

#[test]
fn store_keeps_states_and_emails_unique() {
    let mut store = LoginStore::new();
    assert_eq!(store.insert_state(attempt("s1", "n1", "/a")), Ok(()));
    assert_eq!(store.insert_state(attempt("s1", "n2", "/b")), Err(StoreError::Duplicate));
    assert_eq!(store.states.len(), 1);
    assert_eq!(store.states[0].nonce, "n1");
    let row = store.take_state(&"s1".to_string()).unwrap();
    assert_eq!(row.nonce, "n1");
    assert_eq!(row.return_url, "/a");
    assert!(store.take_state(&"s1".to_string()).is_none());
    let id = store.create_user("a@b.c".to_string(), "A".to_string(), "B".to_string(), 5);
    assert_eq!(id, Ok(1));
    let again = store.create_user("a@b.c".to_string(), "C".to_string(), "D".to_string(), 6);
    assert_eq!(again, Err(StoreError::Duplicate));
    assert_eq!(store.users.len(), 1);
    store.next_user_id = i64::MAX;
    let full = store.create_user("x@y.z".to_string(), "X".to_string(), "Y".to_string(), 7);
    assert_eq!(full, Err(StoreError::Full));
    assert_eq!(StoreError::Duplicate.message(), "store: the key is taken");
    assert_eq!(StoreError::Full.message(), "store: no identifier is left");
}

#[test]
fn steps_follow_each_other_in_order() {
    let seed = seed("p1", "p2", 100);
    let (progress, request) = begin("s1".to_string(), "c1".to_string());
    match &request {
        Request::TakeState { csrf_state } => assert_eq!(csrf_state, "s1"),
        other => panic!("{:?}", other),
    }
    let row = StateRow { nonce: "n1".to_string(), return_url: "/home".to_string() };
    let (progress, request) = advance_with(progress, Answer::State(Some(row)), &seed);
    match &request {
        Request::ExchangeCode { code } => assert_eq!(code, "c1"),
        other => panic!("{:?}", other),
    }
    let (progress, request) = advance_with(progress, Answer::Tokens, &seed);
    match &request {
        Request::VerifyIdToken { nonce } => assert_eq!(nonce, "n1"),
        other => panic!("{:?}", other),
    }
    let (progress, request) = advance_with(progress, Answer::Claims, &seed);
    assert!(matches!(request, Request::FetchUserInfo));
    let (progress, request) =
        advance_with(progress, Answer::UserInfo(info("ada@example.com", true)), &seed);
    match &request {
        Request::FindUser { email } => assert_eq!(email, "ada@example.com"),
        other => panic!("{:?}", other),
    }
    let (progress, request) = advance_with(progress, Answer::User(None), &seed);
    match &request {
        Request::CreateUser { email, first_name, last_name } => {
            assert_eq!(email, "ada@example.com");
            assert_eq!(first_name, "Ada");
            assert_eq!(last_name, "Lovelace");
        }
        other => panic!("{:?}", other),
    }
    let (progress, request) = advance_with(progress, Answer::NewUser(9), &seed);
    match &request {
        Request::CreateSession { session } => {
            assert_eq!(session.user_id, 9);
            assert_eq!(session.created_at, 100);
            assert_eq!(session.expires_at, 100 + 86_400);
            assert_eq!(session.session_token_p1, "p1");
            assert_eq!(session.session_token_p2, "p2");
        }
        other => panic!("{:?}", other),
    }
    let (progress, request) = advance_with(progress, Answer::SessionStored, &seed);
    match &request {
        Request::Finish { session_token, return_url } => {
            assert_eq!(session_token, "p1_p2");
            assert_eq!(return_url, "/home");
        }
        other => panic!("{:?}", other),
    }
    assert!(matches!(progress, Progress::Finished));
}

#[test]
fn steps_fail_closed() {
    let seed = seed("p1", "p2", 100);
    let (progress, _) = begin("s1".to_string(), "c1".to_string());
    let (progress, request) = advance_with(progress, Answer::State(None), &seed);
    assert!(matches!(request, Request::Abort { error: LoginError::InvalidState }));
    assert!(matches!(progress, Progress::Finished));
    let (_, request) = advance_with(progress, Answer::SessionStored, &seed);
    assert!(matches!(request, Request::Abort { error: LoginError::UnexpectedReply }));

    let (progress, _) = begin("s1".to_string(), "c1".to_string());
    let (_, request) = advance_with(progress, Answer::Tokens, &seed);
    assert!(matches!(request, Request::Abort { error: LoginError::UnexpectedReply }));

    let (progress, _) = begin("s1".to_string(), "c1".to_string());
    let (_, request) = advance_with(progress, Answer::Failure("db down".to_string()), &seed);
    match request {
        Request::Abort { error: LoginError::Upstream(text) } => assert_eq!(text, "db down"),
        other => panic!("{:?}", other),
    }

    let waiting = Progress::AwaitingUserInfo { return_url: "/home".to_string() };
    let (_, request) = advance_with(waiting, Answer::UserInfo(info("a@b.c", false)), &seed);
    assert!(matches!(request, Request::Abort { error: LoginError::EmailNotVerified }));
}

#[test]
fn advance_issues_fresh_sessions_for_known_users() {
    let waiting = Progress::AwaitingUser { return_url: "/home".to_string(), info: info("a@b.c", true) };
    let (progress, request) = advance(waiting, Answer::User(Some(4)));
    let session = match request {
        Request::CreateSession { session } => session,
        other => panic!("{:?}", other),
    };
    assert_eq!(session.user_id, 4);
    assert_eq!(session.expires_at - session.created_at, 86_400);
    assert!(is_hyphenated_uuid(&session.session_token_p1));
    assert!(is_hyphenated_uuid(&session.session_token_p2));
    match progress {
        Progress::AwaitingSession { return_url, session_token } => {
            assert_eq!(return_url, "/home");
            assert_eq!(session_token, session.token());
        }
        other => panic!("{:?}", other),
    }
    let (progress, request) = begin("s".to_string(), "c".to_string());
    assert!(matches!(request, Request::TakeState { .. }));
    let (_, request) = advance(progress, Answer::State(None));
    assert!(matches!(request, Request::Abort { error: LoginError::InvalidState }));
}

#[test]
fn provider_failures_come_in_order() {
    let both = Provider {
        exchange_failure: some("first"),
        verification_failure: some("second"),
        user_info: Err("third".to_string()),
    };
    let mut store = LoginStore::new();
    store.insert_state(attempt("s1", "n", "/")).unwrap();
    match store.callback(&both, some("s1"), some("c"), &seed("a", "b", 0)) {
        Err(LoginError::Upstream(text)) => assert_eq!(text, "first"),
        other => panic!("{:?}", other),
    }
    let later = Provider {
        exchange_failure: None,
        verification_failure: some("second"),
        user_info: Err("third".to_string()),
    };
    store.insert_state(attempt("s2", "n", "/")).unwrap();
    match store.callback(&later, some("s2"), some("c"), &seed("a", "b", 0)) {
        Err(LoginError::Upstream(text)) => assert_eq!(text, "second"),
        other => panic!("{:?}", other),
    }
    let last = Provider {
        exchange_failure: None,
        verification_failure: None,
        user_info: Err("third".to_string()),
    };
    store.insert_state(attempt("s3", "n", "/")).unwrap();
    match store.callback(&last, some("s3"), some("c"), &seed("a", "b", 0)) {
        Err(LoginError::Upstream(text)) => assert_eq!(text, "third"),
        other => panic!("{:?}", other),
    }
    assert!(store.sessions.is_empty());
}

fn registration() -> Registration {
    Registration {
        auth_url: "https://accounts.google.com/o/oauth2/v2/auth".to_string(),
        client_id: "club-client".to_string(),
        redirect_url: redirect_url("http://127.0.0.1:3000"),
    }
}

fn parameter(url: &str, name: &str) -> String {
    let query = url.split_once('?').unwrap().1;
    for pair in query.split('&') {
        let (key, value) = pair.split_once('=').unwrap();
        if key == name {
            return value.to_string();
        }
    }
    panic!("no {name} in {url}");
}

#[test]
fn login_url_is_the_one_of_the_attempt() {
    let url = login_url(&registration(), &attempt("state-1", "nonce-1", "/home")).unwrap();
    assert_eq!(
        url,
        "https://accounts.google.com/o/oauth2/v2/auth?response_type=code&client_id=club-client&state=state-1&redirect_uri=http%3A%2F%2F127.0.0.1%3A3000%2Fauth%2Fgoogle%2Fcallback&scope=openid+email+profile&nonce=nonce-1"
    );
    let broken = Registration { auth_url: "not a url".to_string(), ..registration() };
    assert!(login_url(&broken, &attempt("s", "n", "/")).is_none());
    assert!(authorize_url(&broken, "/").is_none());
    let broken = Registration { redirect_url: String::new(), ..registration() };
    assert!(login_url(&broken, &attempt("s", "n", "/")).is_none());
}

#[test]
fn authorize_url_comes_with_a_fresh_attempt() {
    let (attempt, url) = authorize_url(&registration(), "/back").unwrap();
    assert_eq!(attempt.return_url, "/back");
    assert!(is_random_token(&attempt.csrf_state));
    assert!(is_random_token(&attempt.nonce));
    assert_eq!(parameter(&url, "state"), attempt.csrf_state);
    assert_eq!(parameter(&url, "nonce"), attempt.nonce);
    assert_eq!(parameter(&url, "scope"), "openid+email+profile");
    assert_eq!(parameter(&url, "response_type"), "code");
    assert_eq!(login_url(&registration(), &attempt).unwrap(), url);
}

#[test]
fn authorize_stores_one_fresh_attempt() {
    let mut store = LoginStore::new();
    let url = store.authorize(&registration(), "/back").unwrap();
    assert_eq!(store.states.len(), 1);
    let csrf_state = store.states[0].csrf_state.clone();
    assert!(is_random_token(&csrf_state));
    assert!(is_random_token(&store.states[0].nonce));
    assert_eq!(store.states[0].return_url, "/back");
    assert_eq!(parameter(&url, "state"), csrf_state);
    assert_eq!(parameter(&url, "nonce"), store.states[0].nonce);
    store.authorize(&registration(), "/other").unwrap();
    assert_eq!(store.states.len(), 2);
    assert_ne!(store.states[1].csrf_state, csrf_state);
    let broken = Registration { client_id: "c".to_string(), auth_url: String::new(), ..registration() };
    assert!(matches!(store.authorize(&broken, "/"), Err(LoginError::BadRegistration)));
    assert_eq!(store.states.len(), 2);
    let done = store.callback(
        &provider("ada@example.com", true),
        Some(csrf_state.clone()),
        some("code"),
        &seed("p1", "p2", 1),
    );
    assert_eq!(done.unwrap(), ("p1_p2".to_string(), "/back".to_string()));
    let replay = store.callback(
        &provider("ada@example.com", true),
        Some(csrf_state),
        some("code"),
        &seed("p1", "p2", 1),
    );
    assert!(matches!(replay, Err(LoginError::InvalidState)));
    assert_eq!(store.states.len(), 1);
}

#[test]
fn login_asks_google_for_email_and_profile() {
    assert_eq!(scopes(), vec!["email".to_string(), "profile".to_string()]);
    assert_eq!(ISSUER_URL, "https://accounts.google.com");
    assert_eq!(
        user_info_url("tok"),
        "https://www.googleapis.com/oauth2/v2/userinfo?oauth_token=tok"
    );
}

fn told(error: LoginError) -> (u16, String) {
    match error.into_response() {
        Reply::Text { status, text } => (status.code(), text),
        other => panic!("{:?}", other),
    }
}

#[test]
fn failed_login_does_not_tell_which_check_failed() {
    assert_eq!(told(LoginError::MissingState), (400, "OAuth: without state".to_string()));
    assert_eq!(told(LoginError::MissingCode), (400, "OAuth: without code".to_string()));
    let generic = (500, "OAuth: login failed".to_string());
    assert_eq!(told(LoginError::InvalidState), generic);
    assert_eq!(told(LoginError::EmailNotVerified), generic);
    assert_eq!(told(LoginError::ClockOutOfRange), generic);
    assert_eq!(told(LoginError::UnexpectedReply), generic);
    assert_eq!(told(LoginError::BadRegistration), generic);
    assert_eq!(LoginError::BadRegistration.message(), "OAuth: the registration holds no URL");
    assert_eq!(told(LoginError::Upstream("nonce mismatch".to_string())), generic);
}

#[test]
fn store_answers_what_it_is_asked() {
    let mut store = LoginStore::new();
    store.insert_state(attempt("s1", "n1", "/home")).unwrap();
    let provider = provider("ada@example.com", true);
    let taken = store.answer(&provider, &Request::TakeState { csrf_state: "s1".to_string() }, 0);
    match taken {
        Some(Answer::State(Some(row))) => assert_eq!(row.nonce, "n1"),
        other => panic!("{:?}", other),
    }
    let none =
        store.answer(&provider, &Request::Abort { error: LoginError::InvalidState }, 0);
    assert!(none.is_none());
    let done = Request::Finish { session_token: "t".to_string(), return_url: "/".to_string() };
    assert!(store.answer(&provider, &done, 0).is_none());
    assert!(matches!(
        store.answer(&provider, &Request::ExchangeCode { code: "c".to_string() }, 0),
        Some(Answer::Tokens)
    ));
    assert!(matches!(
        store.answer(&provider, &Request::VerifyIdToken { nonce: "n".to_string() }, 0),
        Some(Answer::Claims)
    ));
    match store.answer(&provider, &Request::FetchUserInfo, 0) {
        Some(Answer::UserInfo(info)) => assert_eq!(info.email, "ada@example.com"),
        other => panic!("{:?}", other),
    }
    let request = Request::CreateUser {
        email: "ada@example.com".to_string(),
        first_name: "Ada".to_string(),
        last_name: "L".to_string(),
    };
    assert!(matches!(store.answer(&provider, &request, 3), Some(Answer::NewUser(1))));
    match store.answer(&provider, &request, 4) {
        Some(Answer::Failure(text)) => assert_eq!(text, "store: the key is taken"),
        other => panic!("{:?}", other),
    }
    let find = Request::FindUser { email: "ada@example.com".to_string() };
    assert!(matches!(store.answer(&provider, &find, 5), Some(Answer::User(Some(1)))));
}
