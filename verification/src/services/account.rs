//! The state machine behind every account operation, and its vocabulary.
//!
//! An account operation talks to two stores: the user table and the session
//! store. As with images, the operation names a command, takes the reply and
//! goes on or ends. Two decisions need more than the reply: whether a
//! password matches a stored hash, and whether a session has run out. The
//! first is Argon2's, the second reads the clock.

use crate::clock::{current_time, Timestamp};
use crate::models::user::{public_face, User, UserResponse, UserResponseView, UserSession, UserView};
use crate::security::{verified_against, verify_password, PasswordError, PasswordErrorView};
use vstd::prelude::*;
use vstd::string::*;

verus! {

/// The number of days a login is remembered.
pub const SESSION_DAYS: i64 = 1;

/// Why an account operation failed.
#[derive(Debug, PartialEq, Eq)]
pub enum UserError {
    /// No user has the e-mail address that was given.
    UserNotFound,
    /// The password does not match the stored hash.
    InvalidCredentials,
    /// The session store holds no login for this client.
    SessionNotFound,
    /// The password could not be hashed, or the stored hash could not be read.
    Password(PasswordError),
    /// The user table failed; the text is its own account.
    StoreFailure(String),
    /// The session store failed; the text is its own account.
    SessionFailure(String),
    /// The end of the session cannot be written as an instant.
    ClockOutOfRange,
}

/// The mathematical value of a `UserError`.
pub enum UserErrorView {
    UserNotFound,
    InvalidCredentials,
    SessionNotFound,
    Password(PasswordErrorView),
    StoreFailure(Seq<char>),
    SessionFailure(Seq<char>),
    ClockOutOfRange,
}

impl View for UserError {
    type V = UserErrorView;

    open spec fn view(&self) -> UserErrorView {
        match *self {
            UserError::UserNotFound => UserErrorView::UserNotFound,
            UserError::InvalidCredentials => UserErrorView::InvalidCredentials,
            UserError::SessionNotFound => UserErrorView::SessionNotFound,
            UserError::Password(error) => UserErrorView::Password(error@),
            UserError::StoreFailure(text) => UserErrorView::StoreFailure(text@),
            UserError::SessionFailure(text) => UserErrorView::SessionFailure(text@),
            UserError::ClockOutOfRange => UserErrorView::ClockOutOfRange,
        }
    }
}

impl UserError {
    /// The text of the message: a fixed text for what the service itself
    /// found, the store's own account where a store failed, and the hashing
    /// error's message where hashing failed.
    pub open spec fn message_text(&self) -> Seq<char> {
        match *self {
            UserError::UserNotFound => "User not found"@,
            UserError::InvalidCredentials => "Invalid credentials"@,
            UserError::SessionNotFound => "User session not found"@,
            UserError::Password(error) => error.message_text(),
            UserError::StoreFailure(detail) => detail@,
            UserError::SessionFailure(detail) => detail@,
            UserError::ClockOutOfRange => "Session expiry out of range"@,
        }
    }

    /// The message of the error.
    pub fn message(&self) -> (text: String)
        ensures
            text@ == self.message_text(),
    {
        match self {
            UserError::UserNotFound => String::from_str("User not found"),
            UserError::InvalidCredentials => String::from_str("Invalid credentials"),
            UserError::SessionNotFound => String::from_str("User session not found"),
            UserError::Password(error) => error.message(),
            UserError::StoreFailure(detail) => detail.clone(),
            UserError::SessionFailure(detail) => detail.clone(),
            UserError::ClockOutOfRange => String::from_str("Session expiry out of range"),
        }
    }
}

/// One request to the user table or the session store.
#[derive(Debug, PartialEq, Eq)]
pub enum UserCommand {
    /// Insert a user with this name, address and password hash, and return
    /// the row.
    InsertUser { username: String, email: String, password: String },
    /// Fetch the user with this e-mail address.
    FindUserByEmail { email: String },
    /// Fetch the user with this identifier.
    FindUserById { id: u128 },
    /// Put the login into the client's session and save the session.
    SaveSession { session: UserSession },
    /// Read the login from the client's session.
    LoadSession,
    /// Empty the client's session.
    FlushSession,
}

/// The mathematical value of a `UserCommand`.
pub enum UserCommandView {
    InsertUser { username: Seq<char>, email: Seq<char>, password: Seq<char> },
    FindUserByEmail { email: Seq<char> },
    FindUserById { id: u128 },
    SaveSession { session: UserSession },
    LoadSession,
    FlushSession,
}

impl View for UserCommand {
    type V = UserCommandView;

    open spec fn view(&self) -> UserCommandView {
        match *self {
            UserCommand::InsertUser { username, email, password } => UserCommandView::InsertUser {
                username: username@,
                email: email@,
                password: password@,
            },
            UserCommand::FindUserByEmail { email } => UserCommandView::FindUserByEmail {
                email: email@,
            },
            UserCommand::FindUserById { id } => UserCommandView::FindUserById { id },
            UserCommand::SaveSession { session } => UserCommandView::SaveSession { session },
            UserCommand::LoadSession => UserCommandView::LoadSession,
            UserCommand::FlushSession => UserCommandView::FlushSession,
        }
    }
}

/// What a store answered to a `UserCommand`.
#[derive(Debug, PartialEq, Eq)]
pub enum UserReply {
    /// The user was inserted; this is the row as the table holds it.
    UserInserted(User),
    /// The user that matched, if one did.
    UserFound(Option<User>),
    /// The session holds the login and is saved.
    SessionSaved,
    /// The login that the session holds, if it holds one.
    SessionLoaded(Option<UserSession>),
    /// The session is empty.
    SessionFlushed,
    /// The store failed.
    Failed(UserError),
}

/// The mathematical value of a `UserReply`.
pub enum UserReplyView {
    UserInserted(UserView),
    UserFound(Option<UserView>),
    SessionSaved,
    SessionLoaded(Option<UserSession>),
    SessionFlushed,
    Failed(UserErrorView),
}

/// The view of a user that may be absent.
pub open spec fn optional_user_view(user: Option<User>) -> Option<UserView> {
    match user {
        Some(user) => Some(user@),
        None => None,
    }
}

/// The view of a public face that may be absent.
pub open spec fn optional_response_view(user: Option<UserResponse>) -> Option<UserResponseView> {
    match user {
        Some(user) => Some(user@),
        None => None,
    }
}

/// The public face of a user that may be absent.
pub open spec fn optional_public_face(user: Option<UserView>) -> Option<UserResponseView> {
    match user {
        Some(user) => Some(public_face(user)),
        None => None,
    }
}

impl View for UserReply {
    type V = UserReplyView;

    open spec fn view(&self) -> UserReplyView {
        match *self {
            UserReply::UserInserted(user) => UserReplyView::UserInserted(user@),
            UserReply::UserFound(user) => UserReplyView::UserFound(optional_user_view(user)),
            UserReply::SessionSaved => UserReplyView::SessionSaved,
            UserReply::SessionLoaded(session) => UserReplyView::SessionLoaded(session),
            UserReply::SessionFlushed => UserReplyView::SessionFlushed,
            UserReply::Failed(error) => UserReplyView::Failed(error@),
        }
    }
}

/// What an account operation that succeeded hands to its caller.
#[derive(Debug, PartialEq, Eq)]
pub enum UserOutcome {
    /// The row of the user that was inserted.
    Inserted(User),
    /// The row that was asked for, if there is one.
    Fetched(Option<User>),
    /// The public face of the user that signed up.
    SignedUp(UserResponse),
    /// Whether the password matches.
    Authenticated(bool),
    /// The public face of the user that logged in.
    LoggedIn(UserResponse),
    /// The session is empty.
    LoggedOut,
    /// The user of the session, or `None` where the session has run out or
    /// its user is gone.
    CurrentUser(Option<UserResponse>),
}

/// The mathematical value of a `UserOutcome`.
pub enum UserOutcomeView {
    Inserted(UserView),
    Fetched(Option<UserView>),
    SignedUp(UserResponseView),
    Authenticated(bool),
    LoggedIn(UserResponseView),
    LoggedOut,
    CurrentUser(Option<UserResponseView>),
}

impl View for UserOutcome {
    type V = UserOutcomeView;

    open spec fn view(&self) -> UserOutcomeView {
        match *self {
            UserOutcome::Inserted(user) => UserOutcomeView::Inserted(user@),
            UserOutcome::Fetched(user) => UserOutcomeView::Fetched(optional_user_view(user)),
            UserOutcome::SignedUp(user) => UserOutcomeView::SignedUp(user@),
            UserOutcome::Authenticated(matches) => UserOutcomeView::Authenticated(matches),
            UserOutcome::LoggedIn(user) => UserOutcomeView::LoggedIn(user@),
            UserOutcome::LoggedOut => UserOutcomeView::LoggedOut,
            UserOutcome::CurrentUser(user) => UserOutcomeView::CurrentUser(
                optional_response_view(user),
            ),
        }
    }
}

/// Where an account operation stands.
#[derive(Debug, PartialEq, Eq)]
pub enum UserSaga {
    /// A user row is being inserted; the row is the result.
    Inserting,
    /// A user row is being fetched; the row is the result.
    Finding,
    /// Sign-up: the user row is being inserted.
    SigningUp,
    /// The user is being fetched to check a password against its hash.
    Authenticating { raw_password: String },
    /// Login: the user is being fetched.
    LoggingIn { raw_password: String },
    /// Login: the password matched, the session is being saved.
    SavingSession { user: UserResponse },
    /// Logout: the session is being emptied.
    LoggingOut,
    /// Current user: the session is being read.
    LoadingSession,
    /// Current user: the session stands, its user is being fetched.
    FetchingCurrentUser,
    /// Current user: the session has run out and is being emptied.
    FlushingExpired,
}

/// The mathematical value of a `UserSaga`.
pub enum UserSagaView {
    Inserting,
    Finding,
    SigningUp,
    Authenticating { raw_password: Seq<char> },
    LoggingIn { raw_password: Seq<char> },
    SavingSession { user: UserResponseView },
    LoggingOut,
    LoadingSession,
    FetchingCurrentUser,
    FlushingExpired,
}

impl View for UserSaga {
    type V = UserSagaView;

    open spec fn view(&self) -> UserSagaView {
        match *self {
            UserSaga::Inserting => UserSagaView::Inserting,
            UserSaga::Finding => UserSagaView::Finding,
            UserSaga::SigningUp => UserSagaView::SigningUp,
            UserSaga::Authenticating { raw_password } => UserSagaView::Authenticating {
                raw_password: raw_password@,
            },
            UserSaga::LoggingIn { raw_password } => UserSagaView::LoggingIn {
                raw_password: raw_password@,
            },
            UserSaga::SavingSession { user } => UserSagaView::SavingSession { user: user@ },
            UserSaga::LoggingOut => UserSagaView::LoggingOut,
            UserSaga::LoadingSession => UserSagaView::LoadingSession,
            UserSaga::FetchingCurrentUser => UserSagaView::FetchingCurrentUser,
            UserSaga::FlushingExpired => UserSagaView::FlushingExpired,
        }
    }
}

/// One step of an account operation.
#[derive(Debug, PartialEq, Eq)]
pub enum UserStep {
    Next(UserSaga, UserCommand),
    Done(Result<UserOutcome, UserError>),
}

/// The mathematical value of a `UserStep`.
pub enum UserStepView {
    Next(UserSagaView, UserCommandView),
    Done(Result<UserOutcomeView, UserErrorView>),
}

impl View for UserStep {
    type V = UserStepView;

    open spec fn view(&self) -> UserStepView {
        match *self {
            UserStep::Next(saga, command) => UserStepView::Next(saga@, command@),
            UserStep::Done(Ok(outcome)) => UserStepView::Done(Ok(outcome@)),
            UserStep::Done(Err(error)) => UserStepView::Done(Err(error@)),
        }
    }
}

/// The account given of a reply that does not answer the pending command.
pub open spec fn unexpected_reply() -> Seq<char> {
    "unexpected reply"@
}

/// The failure that a reply of the user table stands for, where it is not
/// the success that was awaited.
pub open spec fn table_failure(reply: UserReplyView) -> UserErrorView {
    match reply {
        UserReplyView::Failed(error) => error,
        _ => UserErrorView::StoreFailure(unexpected_reply()),
    }
}

/// The failure that a reply of the session store stands for, where it is
/// not the success that was awaited.
pub open spec fn session_failure(reply: UserReplyView) -> UserErrorView {
    match reply {
        UserReplyView::Failed(error) => error,
        _ => UserErrorView::SessionFailure(unexpected_reply()),
    }
}

/// What a password check makes of the user that was found: `UserNotFound`
/// where there is none, the hash library's error where the stored hash
/// cannot be read, else whether the password matches.
pub open spec fn authentication(raw_password: Seq<char>, user: Option<UserView>) -> Result<
    bool,
    UserErrorView,
> {
    match user {
        None => Err(UserErrorView::UserNotFound),
        Some(user) => match verified_against(raw_password, user.password) {
            Ok(matches) => Ok(matches),
            Err(error) => Err(UserErrorView::Password(error)),
        },
    }
}

/// What a login does once the user was looked up, at the instant `now`: it
/// fails where the check fails or the password does not match, and else
/// saves a session of that user which ends `SESSION_DAYS` later.
pub open spec fn login_decision(
    raw_password: Seq<char>,
    user: Option<UserView>,
    now: Timestamp,
) -> UserStepView {
    match authentication(raw_password, user) {
        Err(error) => UserStepView::Done(Err(error)),
        Ok(false) => UserStepView::Done(Err(UserErrorView::InvalidCredentials)),
        Ok(true) => match now.shifted_by_days(SESSION_DAYS as int) {
            None => UserStepView::Done(Err(UserErrorView::ClockOutOfRange)),
            Some(end) => UserStepView::Next(
                UserSagaView::SavingSession { user: public_face(user->0) },
                UserCommandView::SaveSession {
                    session: UserSession { user_id: (user->0).id, expires_at: end },
                },
            ),
        },
    }
}

/// What the current-user operation does once the session was read, at the
/// instant `now`: without a login it fails, with a live one it fetches the
/// user, with one that has run out it empties the session.
pub open spec fn session_decision(session: Option<UserSession>, now: Timestamp) -> UserStepView {
    match session {
        None => UserStepView::Done(Err(UserErrorView::SessionNotFound)),
        Some(session) => if session.live_at(now) {
            UserStepView::Next(
                UserSagaView::FetchingCurrentUser,
                UserCommandView::FindUserById { id: session.user_id },
            )
        } else {
            UserStepView::Next(UserSagaView::FlushingExpired, UserCommandView::FlushSession)
        },
    }
}

/// What follows when an account operation in state `saga` receives `reply`
/// at the instant `now`.
pub open spec fn next_user_step(saga: UserSagaView, reply: UserReplyView, now: Timestamp) -> UserStepView {
    match saga {
        UserSagaView::Inserting => match reply {
            UserReplyView::UserInserted(user) => UserStepView::Done(
                Ok(UserOutcomeView::Inserted(user)),
            ),
            _ => UserStepView::Done(Err(table_failure(reply))),
        },
        UserSagaView::Finding => match reply {
            UserReplyView::UserFound(user) => UserStepView::Done(Ok(UserOutcomeView::Fetched(user))),
            _ => UserStepView::Done(Err(table_failure(reply))),
        },
        UserSagaView::SigningUp => match reply {
            UserReplyView::UserInserted(user) => UserStepView::Done(
                Ok(UserOutcomeView::SignedUp(public_face(user))),
            ),
            _ => UserStepView::Done(Err(table_failure(reply))),
        },
        UserSagaView::Authenticating { raw_password } => match reply {
            UserReplyView::UserFound(user) => match authentication(raw_password, user) {
                Ok(matches) => UserStepView::Done(Ok(UserOutcomeView::Authenticated(matches))),
                Err(error) => UserStepView::Done(Err(error)),
            },
            _ => UserStepView::Done(Err(table_failure(reply))),
        },
        UserSagaView::LoggingIn { raw_password } => match reply {
            UserReplyView::UserFound(user) => login_decision(raw_password, user, now),
            _ => UserStepView::Done(Err(table_failure(reply))),
        },
        UserSagaView::SavingSession { user } => match reply {
            UserReplyView::SessionSaved => UserStepView::Done(Ok(UserOutcomeView::LoggedIn(user))),
            _ => UserStepView::Done(Err(session_failure(reply))),
        },
        UserSagaView::LoggingOut => match reply {
            UserReplyView::SessionFlushed => UserStepView::Done(Ok(UserOutcomeView::LoggedOut)),
            _ => UserStepView::Done(Err(session_failure(reply))),
        },
        UserSagaView::LoadingSession => match reply {
            UserReplyView::SessionLoaded(session) => session_decision(session, now),
            _ => UserStepView::Done(Err(session_failure(reply))),
        },
        UserSagaView::FetchingCurrentUser => match reply {
            UserReplyView::UserFound(user) => UserStepView::Done(
                Ok(UserOutcomeView::CurrentUser(optional_public_face(user))),
            ),
            _ => UserStepView::Done(Err(table_failure(reply))),
        },
        UserSagaView::FlushingExpired => match reply {
            UserReplyView::SessionFlushed => UserStepView::Done(
                Ok(UserOutcomeView::CurrentUser(None)),
            ),
            _ => UserStepView::Done(Err(session_failure(reply))),
        },
    }
}

/// The view of the result of a password check.
pub open spec fn authentication_view(result: Result<bool, UserError>) -> Result<
    bool,
    UserErrorView,
> {
    match result {
        Ok(matches) => Ok(matches),
        Err(error) => Err(error@),
    }
}

impl UserReply {
    /// Reads a reply of the user table as a failure.
    pub fn into_table_failure(self) -> (error: UserError)
        ensures
            error@ == table_failure(self@),
    {
        match self {
            UserReply::Failed(error) => error,
            _ => UserError::StoreFailure(String::from_str("unexpected reply")),
        }
    }

    /// Reads a reply of the session store as a failure.
    pub fn into_session_failure(self) -> (error: UserError)
        ensures
            error@ == session_failure(self@),
    {
        match self {
            UserReply::Failed(error) => error,
            _ => UserError::SessionFailure(String::from_str("unexpected reply")),
        }
    }
}

/// Checks `raw_password` against the hash of the user that was found.
pub fn authenticate(raw_password: &str, user: &Option<User>) -> (checked: Result<bool, UserError>)
    ensures
        authentication_view(checked) == authentication(raw_password@, optional_user_view(*user)),
{
    match user {
        None => Err(UserError::UserNotFound),
        Some(user) => match verify_password(raw_password, user.password.as_str()) {
            Ok(matches) => Ok(matches),
            Err(error) => Err(UserError::Password(error)),
        },
    }
}

/// Decides a login once the user was looked up, at the instant `now`.
pub fn decide_login(raw_password: &str, user: Option<User>, now: &Timestamp) -> (step: UserStep)
    ensures
        step@ == login_decision(raw_password@, optional_user_view(user), *now),
{
    match authenticate(raw_password, &user) {
        Err(error) => UserStep::Done(Err(error)),
        Ok(false) => UserStep::Done(Err(UserError::InvalidCredentials)),
        Ok(true) => match user {
            None => UserStep::Done(Err(UserError::UserNotFound)),
            Some(user) => match now.one_day_later() {
                None => UserStep::Done(Err(UserError::ClockOutOfRange)),
                Some(end) => {
                    let session = UserSession::new(user.id, end);
                    UserStep::Next(
                        UserSaga::SavingSession { user: UserResponse::from(user) },
                        UserCommand::SaveSession { session },
                    )
                },
            },
        },
    }
}

/// Decides what to do with the session that was read, at the instant `now`.
pub fn decide_session(session: Option<UserSession>, now: &Timestamp) -> (step: UserStep)
    ensures
        step@ == session_decision(session, *now),
{
    match session {
        None => UserStep::Done(Err(UserError::SessionNotFound)),
        Some(session) => if session.is_live_at(now) {
            UserStep::Next(
                UserSaga::FetchingCurrentUser,
                UserCommand::FindUserById { id: session.user_id },
            )
        } else {
            UserStep::Next(UserSaga::FlushingExpired, UserCommand::FlushSession)
        },
    }
}

impl UserSaga {
    /// Takes the reply to the pending command and decides what follows, with
    /// `now` as the present instant.
    pub fn advance_at(self, reply: UserReply, now: &Timestamp) -> (step: UserStep)
        ensures
            step@ == next_user_step(self@, reply@, *now),
    {
        match self {
            UserSaga::Inserting => match reply {
                UserReply::UserInserted(user) => UserStep::Done(Ok(UserOutcome::Inserted(user))),
                other => UserStep::Done(Err(other.into_table_failure())),
            },
            UserSaga::Finding => match reply {
                UserReply::UserFound(user) => UserStep::Done(Ok(UserOutcome::Fetched(user))),
                other => UserStep::Done(Err(other.into_table_failure())),
            },
            UserSaga::SigningUp => match reply {
                UserReply::UserInserted(user) => UserStep::Done(
                    Ok(UserOutcome::SignedUp(UserResponse::from(user))),
                ),
                other => UserStep::Done(Err(other.into_table_failure())),
            },
            UserSaga::Authenticating { raw_password } => match reply {
                UserReply::UserFound(user) => match authenticate(raw_password.as_str(), &user) {
                    Ok(matches) => UserStep::Done(Ok(UserOutcome::Authenticated(matches))),
                    Err(error) => UserStep::Done(Err(error)),
                },
                other => UserStep::Done(Err(other.into_table_failure())),
            },
            UserSaga::LoggingIn { raw_password } => match reply {
                UserReply::UserFound(user) => decide_login(raw_password.as_str(), user, now),
                other => UserStep::Done(Err(other.into_table_failure())),
            },
            UserSaga::SavingSession { user } => match reply {
                UserReply::SessionSaved => UserStep::Done(Ok(UserOutcome::LoggedIn(user))),
                other => UserStep::Done(Err(other.into_session_failure())),
            },
            UserSaga::LoggingOut => match reply {
                UserReply::SessionFlushed => UserStep::Done(Ok(UserOutcome::LoggedOut)),
                other => UserStep::Done(Err(other.into_session_failure())),
            },
            UserSaga::LoadingSession => match reply {
                UserReply::SessionLoaded(session) => decide_session(session, now),
                other => UserStep::Done(Err(other.into_session_failure())),
            },
            UserSaga::FetchingCurrentUser => match reply {
                UserReply::UserFound(user) => {
                    let face = match user {
                        Some(user) => Some(UserResponse::from(user)),
                        None => None,
                    };
                    UserStep::Done(Ok(UserOutcome::CurrentUser(face)))
                },
                other => UserStep::Done(Err(other.into_table_failure())),
            },
            UserSaga::FlushingExpired => match reply {
                UserReply::SessionFlushed => UserStep::Done(Ok(UserOutcome::CurrentUser(None))),
                other => UserStep::Done(Err(other.into_session_failure())),
            },
        }
    }

    /// Takes the reply to the pending command and decides what follows at
    /// the present instant, read from the system clock.
    ///
    /// The instant is not determined by the arguments. What holds whatever
    /// the clock said: the step is the one `next_user_step` gives for some
    /// well-formed instant.
    pub fn advance(self, reply: UserReply) -> (step: UserStep)
        ensures
            exists|now: Timestamp| #[trigger]
                now.well_formed() && step@ == next_user_step(self@, reply@, now),
    {
        let now = current_time();
        let ghost before = self@;
        let ghost heard = reply@;
        let step = self.advance_at(reply, &now);
        assert(now.well_formed() && step@ == next_user_step(before, heard, now));
        step
    }
}

} // verus!
