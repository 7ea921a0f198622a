use image_service::clock::Timestamp;
use image_service::models::user::{LoginRequest, SignupRequest, User, UserResponse, UserSession};
use image_service::repositories::user::UserRepository;
use image_service::security::{verify_password, PasswordError};
use image_service::services::account::{
    authenticate, decide_login, decide_session, UserCommand, UserError, UserOutcome, UserReply,
    UserSaga, UserStep, SESSION_DAYS,
};
use image_service::services::user::UserService;

const KNOWN_HASH: &str =
    "$argon2id$v=19$m=256,t=2,p=1$c29tZXNhbHQ$nf65EOgLrQMR/uIPnA4rEsF5h7TKyQwu9U1bMCHGi/4";

fn at(secs: i64) -> Timestamp {
    Timestamp { secs, nanos: 0 }
}

fn alice() -> User {
    User {
        id: 7,
        username: "alice".to_string(),
        password: KNOWN_HASH.to_string(),
        email: "alice@example.org".to_string(),
        created_at: at(1_000),
        updated_at: at(2_000),
    }
}

fn face() -> UserResponse {
    UserResponse { id: 7, username: "alice".to_string(), email: "alice@example.org".to_string() }
}

fn login(password: &str) -> LoginRequest {
    LoginRequest { email: "alice@example.org".to_string(), raw_password: password.to_string() }
}

fn answer(step: UserStep, reply: UserReply, now: Timestamp) -> UserStep {
    match step {
        UserStep::Next(saga, _) => saga.advance_at(reply, &now),
        UserStep::Done(_) => panic!("the operation has ended"),
    }
}

#[test]
fn session_lasts_one_day() {
    assert_eq!(SESSION_DAYS, 1);
    assert_eq!(UserService::session_key(), "user_session");
}

#[test]
fn login_fetches_the_user_by_email() {
    assert_eq!(
        UserService::new().login_user(login("password")),
        UserStep::Next(
            UserSaga::LoggingIn { raw_password: "password".to_string() },
            UserCommand::FindUserByEmail { email: "alice@example.org".to_string() },
        )
    );
}

#[test]
fn login_with_the_right_password_saves_a_session_of_one_day() {
    let now = Timestamp { secs: 1_700_000_000, nanos: 123 };
    let step = answer(
        UserService::new().login_user(login("password")),
        UserReply::UserFound(Some(alice())),
        now,
    );
    let session = UserSession { user_id: 7, expires_at: Timestamp { secs: 1_700_086_400, nanos: 123 } };
    assert_eq!(
        step,
        UserStep::Next(UserSaga::SavingSession { user: face() }, UserCommand::SaveSession { session })
    );
    assert_eq!(
        answer(step, UserReply::SessionSaved, now),
        UserStep::Done(Ok(UserOutcome::LoggedIn(face())))
    );
}

#[test]
fn login_with_a_wrong_password_is_refused() {
    let step = answer(
        UserService::new().login_user(login("guess")),
        UserReply::UserFound(Some(alice())),
        at(0),
    );
    assert_eq!(step, UserStep::Done(Err(UserError::InvalidCredentials)));
    assert_eq!(UserError::InvalidCredentials.message(), "Invalid credentials");
}

#[test]
fn login_of_an_unknown_user_is_refused() {
    let step = answer(
        UserService::new().login_user(login("password")),
        UserReply::UserFound(None),
        at(0),
    );
    assert_eq!(step, UserStep::Done(Err(UserError::UserNotFound)));
    assert_eq!(UserError::UserNotFound.message(), "User not found");
}

#[test]
fn login_against_an_unreadable_hash_is_a_password_error() {
    let mut user = alice();
    user.password = "plain text".to_string();
    match decide_login("password", Some(user), &at(0)) {
        UserStep::Done(Err(UserError::Password(PasswordError::InvalidHash(detail)))) => {
            let error = UserError::Password(PasswordError::InvalidHash(detail.clone()));
            assert_eq!(error.message(), format!("Invalid password hash: {}", detail));
        }
        other => panic!("unexpected step {:?}", other),
    }
}

#[test]
fn login_at_the_end_of_time_cannot_name_its_expiry() {
    let step = decide_login("password", Some(alice()), &at(i64::MAX - 86_399));
    assert_eq!(step, UserStep::Done(Err(UserError::ClockOutOfRange)));
    assert_eq!(UserError::ClockOutOfRange.message(), "Session expiry out of range");
    let step = decide_login("password", Some(alice()), &at(i64::MAX - 86_400));
    let session = UserSession { user_id: 7, expires_at: at(i64::MAX) };
    assert_eq!(
        step,
        UserStep::Next(UserSaga::SavingSession { user: face() }, UserCommand::SaveSession { session })
    );
}

#[test]
fn login_passes_a_store_failure_on() {
    let failure = UserError::StoreFailure("pool timed out".to_string());
    let step = answer(
        UserService::new().login_user(login("password")),
        UserReply::Failed(UserError::StoreFailure("pool timed out".to_string())),
        at(0),
    );
    assert_eq!(failure.message(), "pool timed out");
    assert_eq!(step, UserStep::Done(Err(failure)));
}

#[test]
fn a_session_that_cannot_be_saved_fails_the_login() {
    let saga = UserSaga::SavingSession { user: face() };
    assert_eq!(
        saga.advance_at(
            UserReply::Failed(UserError::SessionFailure("redis down".to_string())),
            &at(0)
        ),
        UserStep::Done(Err(UserError::SessionFailure("redis down".to_string())))
    );
    let saga = UserSaga::SavingSession { user: face() };
    assert_eq!(
        saga.advance_at(UserReply::SessionFlushed, &at(0)),
        UserStep::Done(Err(UserError::SessionFailure("unexpected reply".to_string())))
    );
}

#[test]
fn authenticate_says_whether_the_password_matches() {
    assert_eq!(authenticate("password", &Some(alice())), Ok(true));
    assert_eq!(authenticate("guess", &Some(alice())), Ok(false));
    assert_eq!(authenticate("password", &None), Err(UserError::UserNotFound));
    let service = UserService::new();
    assert_eq!(
        answer(service.authenticate_user(login("guess")), UserReply::UserFound(Some(alice())), at(0)),
        UserStep::Done(Ok(UserOutcome::Authenticated(false)))
    );
    assert_eq!(
        answer(service.authenticate_user(login("password")), UserReply::UserFound(None), at(0)),
        UserStep::Done(Err(UserError::UserNotFound))
    );
}

#[test]
fn logout_empties_the_session() {
    let service = UserService::new();
    assert_eq!(
        service.logout_user(),
        UserStep::Next(UserSaga::LoggingOut, UserCommand::FlushSession)
    );
    assert_eq!(
        answer(service.logout_user(), UserReply::SessionFlushed, at(0)),
        UserStep::Done(Ok(UserOutcome::LoggedOut))
    );
}

#[test]
fn current_user_needs_a_session() {
    let service = UserService::new();
    assert_eq!(
        service.get_current_user(),
        UserStep::Next(UserSaga::LoadingSession, UserCommand::LoadSession)
    );
    assert_eq!(
        answer(service.get_current_user(), UserReply::SessionLoaded(None), at(0)),
        UserStep::Done(Err(UserError::SessionNotFound))
    );
    assert_eq!(UserError::SessionNotFound.message(), "User session not found");
}

#[test]
fn a_live_session_leads_to_its_user() {
    let session = UserSession::new(7, at(500));
    let step = decide_session(Some(session), &at(499));
    assert_eq!(
        step,
        UserStep::Next(UserSaga::FetchingCurrentUser, UserCommand::FindUserById { id: 7 })
    );
    assert_eq!(
        answer(step, UserReply::UserFound(Some(alice())), at(499)),
        UserStep::Done(Ok(UserOutcome::CurrentUser(Some(face()))))
    );
    let step = decide_session(Some(session), &at(499));
    assert_eq!(
        answer(step, UserReply::UserFound(None), at(499)),
        UserStep::Done(Ok(UserOutcome::CurrentUser(None)))
    );
}

#[test]
fn a_session_at_its_end_is_flushed() {
    let session = UserSession::new(7, Timestamp { secs: 500, nanos: 10 });
    for now in [Timestamp { secs: 500, nanos: 10 }, Timestamp { secs: 500, nanos: 11 }, at(501)] {
        let step = decide_session(Some(session), &now);
        assert_eq!(step, UserStep::Next(UserSaga::FlushingExpired, UserCommand::FlushSession));
        assert_eq!(
            answer(step, UserReply::SessionFlushed, now),
            UserStep::Done(Ok(UserOutcome::CurrentUser(None)))
        );
    }
    let step = decide_session(Some(session), &Timestamp { secs: 500, nanos: 9 });
    assert_eq!(
        step,
        UserStep::Next(UserSaga::FetchingCurrentUser, UserCommand::FindUserById { id: 7 })
    );
}

#[test]
fn advance_reads_the_clock_for_the_expiry() {
    let saga = UserSaga::LoadingSession;
    let old = UserSession::new(7, at(1_000_000_000));
    assert_eq!(
        saga.advance(UserReply::SessionLoaded(Some(old))),
        UserStep::Next(UserSaga::FlushingExpired, UserCommand::FlushSession)
    );
    let saga = UserSaga::LoggingIn { raw_password: "password".to_string() };
    match saga.advance(UserReply::UserFound(Some(alice()))) {
        UserStep::Next(
            UserSaga::SavingSession { user },
            UserCommand::SaveSession { session },
        ) => {
            assert_eq!(user, face());
            assert_eq!(session.user_id, 7);
            assert!(session.expires_at.secs > 1_700_000_000 + 86_400);
            assert!(session.expires_at.nanos < 1_000_000_000);
        }
        other => panic!("unexpected step {:?}", other),
    }
}

#[test]
fn signup_hashes_the_password_before_the_insert() {
    let payload = SignupRequest {
        username: "bob".to_string(),
        email: "bob@example.org".to_string(),
        raw_password: "hunter2".to_string(),
    };
    let step = UserService::new().signup_user(payload);
    let hash = match &step {
        UserStep::Next(UserSaga::SigningUp, UserCommand::InsertUser { username, email, password }) => {
            assert_eq!(username, "bob");
            assert_eq!(email, "bob@example.org");
            assert_ne!(password, "hunter2");
            assert_eq!(verify_password("hunter2", password), Ok(true));
            password.clone()
        }
        other => panic!("unexpected step {:?}", other),
    };
    let row = User {
        id: 9,
        username: "bob".to_string(),
        password: hash,
        email: "bob@example.org".to_string(),
        created_at: at(5),
        updated_at: at(5),
    };
    assert_eq!(
        answer(step, UserReply::UserInserted(row), at(5)),
        UserStep::Done(Ok(UserOutcome::SignedUp(UserResponse {
            id: 9,
            username: "bob".to_string(),
            email: "bob@example.org".to_string(),
        })))
    );
}

#[test]
fn a_signed_up_user_can_log_in() {
    let payload = SignupRequest {
        username: "bob".to_string(),
        email: "bob@example.org".to_string(),
        raw_password: "hunter2".to_string(),
    };
    let hash = match UserRepository::new().create(payload) {
        UserStep::Next(UserSaga::Inserting, UserCommand::InsertUser { password, .. }) => password,
        other => panic!("unexpected step {:?}", other),
    };
    let mut user = alice();
    user.password = hash;
    assert!(matches!(decide_login("hunter2", Some(user.clone()), &at(0)), UserStep::Next(..)));
    assert_eq!(
        decide_login("hunter3", Some(user), &at(0)),
        UserStep::Done(Err(UserError::InvalidCredentials))
    );
}

#[test]
fn insert_hashed_passes_a_hashing_failure_on() {
    let failed = Err(PasswordError::HashFailed("salt invalid".to_string()));
    assert_eq!(
        UserRepository::insert_hashed(
            UserSaga::Inserting,
            "bob".to_string(),
            "bob@example.org".to_string(),
            failed
        ),
        UserStep::Done(Err(UserError::Password(PasswordError::HashFailed(
            "salt invalid".to_string()
        ))))
    );
    assert_eq!(
        UserRepository::insert_hashed(
            UserSaga::Inserting,
            "bob".to_string(),
            "bob@example.org".to_string(),
            Ok("$hash".to_string())
        ),
        UserStep::Next(
            UserSaga::Inserting,
            UserCommand::InsertUser {
                username: "bob".to_string(),
                email: "bob@example.org".to_string(),
                password: "$hash".to_string(),
            },
        )
    );
}

#[test]
fn repository_lookups_end_with_the_row() {
    let repo = UserRepository::new();
    assert_eq!(
        repo.get_by_id(7),
        UserStep::Next(UserSaga::Finding, UserCommand::FindUserById { id: 7 })
    );
    assert_eq!(
        repo.get_by_email("alice@example.org".to_string()),
        UserStep::Next(
            UserSaga::Finding,
            UserCommand::FindUserByEmail { email: "alice@example.org".to_string() }
        )
    );
    assert_eq!(
        answer(repo.get_by_id(7), UserReply::UserFound(Some(alice())), at(0)),
        UserStep::Done(Ok(UserOutcome::Fetched(Some(alice()))))
    );
    assert_eq!(
        answer(repo.get_by_id(8), UserReply::UserFound(None), at(0)),
        UserStep::Done(Ok(UserOutcome::Fetched(None)))
    );
    assert_eq!(
        answer(repo.get_by_id(8), UserReply::SessionSaved, at(0)),
        UserStep::Done(Err(UserError::StoreFailure("unexpected reply".to_string())))
    );
    assert_eq!(
        UserSaga::Inserting.advance_at(UserReply::UserInserted(alice()), &at(0)),
        UserStep::Done(Ok(UserOutcome::Inserted(alice())))
    );
}
