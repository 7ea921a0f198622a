//! The account service: with which command sign-up, login, logout and the
//! question for the current user start.

use crate::models::user::{LoginRequest, SignupRequest};
use crate::repositories::user::{
    fresh_hash_gives_fresh_insert, inserts_with_fresh_hash, UserRepository,
};
use crate::security::{hash_password, hash_result_view};
use crate::services::account::{
    UserCommand, UserCommandView, UserSaga, UserSagaView, UserStep, UserStepView,
};
use vstd::prelude::*;

verus! {

/// The key under which a session holds its login.
pub open spec fn session_key_text() -> Seq<char> {
    "user_session"@
}

/// The first step of a login: fetch the user by e-mail address, and keep
/// the password for the check.
pub open spec fn begin_login(email: Seq<char>, raw_password: Seq<char>) -> UserStepView {
    UserStepView::Next(
        UserSagaView::LoggingIn { raw_password },
        UserCommandView::FindUserByEmail { email },
    )
}

/// The first step of a password check without a login.
pub open spec fn begin_authentication(email: Seq<char>, raw_password: Seq<char>) -> UserStepView {
    UserStepView::Next(
        UserSagaView::Authenticating { raw_password },
        UserCommandView::FindUserByEmail { email },
    )
}

/// The one step of a logout but for the end: empty the session.
pub open spec fn begin_logout() -> UserStepView {
    UserStepView::Next(UserSagaView::LoggingOut, UserCommandView::FlushSession)
}

/// The first step of the question for the current user: read the session.
pub open spec fn begin_current_user() -> UserStepView {
    UserStepView::Next(UserSagaView::LoadingSession, UserCommandView::LoadSession)
}

/// The planner of account operations.
#[derive(Clone, Copy, Debug, PartialEq, Eq)]
pub struct UserService {
    pub repo: UserRepository,
}

impl UserService {
    /// A planner.
    pub fn new() -> (service: UserService)
        ensures
            service == (UserService { repo: UserRepository {  } }),
    {
        UserService { repo: UserRepository::new() }
    }

    /// The key under which a session holds its login.
    pub fn session_key() -> (key: &'static str)
        ensures
            key@ == session_key_text(),
    {
        "user_session"
    }

    /// Starts a sign-up: the password is hashed with a fresh salt, then the
    /// user is inserted. It ends with the public face of the new user.
    pub fn signup_user(&self, payload: SignupRequest) -> (step: UserStep)
        ensures
            inserts_with_fresh_hash(
                step@,
                UserSagaView::SigningUp,
                payload.username@,
                payload.email@,
                payload.raw_password@,
            ),
    {
        let hashed = hash_password(payload.raw_password.as_str());
        let ghost outcome = hash_result_view(hashed);
        let step = UserRepository::insert_hashed(
            UserSaga::SigningUp,
            payload.username,
            payload.email,
            hashed,
        );
        proof {
            fresh_hash_gives_fresh_insert(
                step@,
                UserSagaView::SigningUp,
                payload.username@,
                payload.email@,
                payload.raw_password@,
                outcome,
            );
        }
        step
    }

    /// Starts a password check: it ends with whether the password of
    /// `credentials` matches the hash of the user with their address.
    pub fn authenticate_user(&self, credentials: LoginRequest) -> (step: UserStep)
        ensures
            step@ == begin_authentication(credentials.email@, credentials.raw_password@),
    {
        UserStep::Next(
            UserSaga::Authenticating { raw_password: credentials.raw_password },
            UserCommand::FindUserByEmail { email: credentials.email },
        )
    }

    /// Starts a login: the user is fetched, the password checked, and only
    /// where it matches a session of one day is saved.
    pub fn login_user(&self, credentials: LoginRequest) -> (step: UserStep)
        ensures
            step@ == begin_login(credentials.email@, credentials.raw_password@),
    {
        UserStep::Next(
            UserSaga::LoggingIn { raw_password: credentials.raw_password },
            UserCommand::FindUserByEmail { email: credentials.email },
        )
    }

    /// Starts a logout: the session is emptied.
    pub fn logout_user(&self) -> (step: UserStep)
        ensures
            step@ == begin_logout(),
    {
        UserStep::Next(UserSaga::LoggingOut, UserCommand::FlushSession)
    }

    /// Starts the question for the current user: the session is read; a
    /// live one leads to its user, one that has run out is emptied.
    pub fn get_current_user(&self) -> (step: UserStep)
        ensures
            step@ == begin_current_user(),
    {
        UserStep::Next(UserSaga::LoadingSession, UserCommand::LoadSession)
    }
}

} // verus!
