//! The user repository: with which command each operation on the user table
//! starts.

use crate::models::user::SignupRequest;
use crate::security::{
    hash_password, hash_result_view, hashed_with, verified_against, PasswordError,
    PasswordErrorView,
};
use crate::services::account::{
    UserCommand, UserCommandView, UserError, UserErrorView, UserOutcomeView, UserSaga,
    UserSagaView, UserStep, UserStepView,
};
use vstd::prelude::*;

verus! {

/// The first step of an insert, once the password was hashed: the insert of
/// name, address and hash, or the end where hashing failed. `saga` is the
/// state that takes the reply.
pub open spec fn begin_insert(
    saga: UserSagaView,
    username: Seq<char>,
    email: Seq<char>,
    hashed: Result<Seq<char>, PasswordErrorView>,
) -> UserStepView {
    match hashed {
        Ok(password) => UserStepView::Next(
            saga,
            UserCommandView::InsertUser { username, email, password },
        ),
        Err(error) => UserStepView::Done(Err(UserErrorView::Password(error))),
    }
}

/// The one step of a lookup by identifier but for the end.
pub open spec fn begin_find_by_id(id: u128) -> UserStepView {
    UserStepView::Next(UserSagaView::Finding, UserCommandView::FindUserById { id })
}

/// The one step of a lookup by e-mail address but for the end.
pub open spec fn begin_find_by_email(email: Seq<char>) -> UserStepView {
    UserStepView::Next(UserSagaView::Finding, UserCommandView::FindUserByEmail { email })
}

/// The step is the first step of an insert for which the password was
/// hashed with `salt`.
pub open spec fn inserts_with_salt(
    step: UserStepView,
    saga: UserSagaView,
    username: Seq<char>,
    email: Seq<char>,
    raw_password: Seq<char>,
    salt: Seq<char>,
) -> bool {
    step == begin_insert(saga, username, email, hashed_with(raw_password, salt))
}

/// What holds of the first step of an insert for which the password was
/// hashed with a salt of the hasher's own: it is the first step for some
/// salt, and so either it ends with the hashing failure, or it inserts name
/// and address as given, with a hash against which the password verifies.
pub open spec fn inserts_with_fresh_hash(
    step: UserStepView,
    saga: UserSagaView,
    username: Seq<char>,
    email: Seq<char>,
    raw_password: Seq<char>,
) -> bool {
    &&& exists|salt: Seq<char>| #[trigger]
        inserts_with_salt(step, saga, username, email, raw_password, salt)
    &&& match step {
        UserStepView::Done(result) => result == Err::<UserOutcomeView, UserErrorView>(
            UserErrorView::Password(PasswordErrorView::HashFailed),
        ),
        UserStepView::Next(next, command) => {
            &&& next == saga
            &&& command matches UserCommandView::InsertUser {
                username: name,
                email: address,
                password,
            }
            &&& name == username
            &&& address == email
            &&& verified_against(raw_password, password) == Ok::<bool, PasswordErrorView>(true)
        },
    }
}

/// The first step of an insert of `username` and `email` in state `saga`
/// is the one `inserts_with_fresh_hash` describes, where the password was
/// hashed as `hash_password` hashes it.
pub proof fn fresh_hash_gives_fresh_insert(
    step: UserStepView,
    saga: UserSagaView,
    username: Seq<char>,
    email: Seq<char>,
    raw_password: Seq<char>,
    hashed: Result<Seq<char>, PasswordErrorView>,
)
    requires
        step == begin_insert(saga, username, email, hashed),
        (exists|salt: Seq<char>| hashed == #[trigger] hashed_with(raw_password, salt)),
        hashed matches Ok(text) ==> verified_against(raw_password, text) == Ok::<
            bool,
            PasswordErrorView,
        >(true),
        hashed matches Err(error) ==> error == PasswordErrorView::HashFailed,
    ensures
        inserts_with_fresh_hash(step, saga, username, email, raw_password),
{
    let salt = choose|salt: Seq<char>| hashed == #[trigger] hashed_with(raw_password, salt);
    assert(inserts_with_salt(step, saga, username, email, raw_password, salt));
}

/// The planner of operations on the user table. It holds no connection.
#[derive(Clone, Copy, Debug, PartialEq, Eq)]
pub struct UserRepository {}

impl UserRepository {
    /// A planner.
    pub fn new() -> (repository: UserRepository)
        ensures
            repository == (UserRepository {  }),
    {
        UserRepository {  }
    }

    /// Starts the insert of a user with a password that was hashed already;
    /// `saga` is the state that takes the reply.
    pub fn insert_hashed(
        saga: UserSaga,
        username: String,
        email: String,
        hashed: Result<String, PasswordError>,
    ) -> (step: UserStep)
        ensures
            step@ == begin_insert(saga@, username@, email@, hash_result_view(hashed)),
    {
        match hashed {
            Ok(password) => UserStep::Next(saga, UserCommand::InsertUser { username, email, password }),
            Err(error) => UserStep::Done(Err(UserError::Password(error))),
        }
    }

    /// Starts the insert of the user that `payload` describes. The password
    /// is hashed first, with a fresh salt; the table never sees it raw.
    pub fn create(&self, payload: SignupRequest) -> (step: UserStep)
        ensures
            inserts_with_fresh_hash(
                step@,
                UserSagaView::Inserting,
                payload.username@,
                payload.email@,
                payload.raw_password@,
            ),
    {
        let hashed = hash_password(payload.raw_password.as_str());
        let ghost outcome = hash_result_view(hashed);
        let step = Self::insert_hashed(
            UserSaga::Inserting,
            payload.username,
            payload.email,
            hashed,
        );
        proof {
            fresh_hash_gives_fresh_insert(
                step@,
                UserSagaView::Inserting,
                payload.username@,
                payload.email@,
                payload.raw_password@,
                outcome,
            );
        }
        step
    }

    /// Starts the lookup of the user with identifier `id`.
    pub fn get_by_id(&self, id: u128) -> (step: UserStep)
        ensures
            step@ == begin_find_by_id(id),
    {
        UserStep::Next(UserSaga::Finding, UserCommand::FindUserById { id })
    }

    /// Starts the lookup of the user with the e-mail address `email`.
    pub fn get_by_email(&self, email: String) -> (step: UserStep)
        ensures
            step@ == begin_find_by_email(email@),
    {
        UserStep::Next(UserSaga::Finding, UserCommand::FindUserByEmail { email })
    }
}

} // verus!
