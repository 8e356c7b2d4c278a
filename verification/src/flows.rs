//! The order of the register, login and refresh endpoints: each is a step
//! function from the flow's state and the outcome of the last outside step
//! (a database read or write, a cache read, a token decode) to the next
//! state and the next action. The service performs each action and feeds
//! its outcome back; an action that answers ends the flow.

use vstd::prelude::*;

use crate::auth::{
    check_login, existing_user, profile_kind, refresh_session_id, refresh_session_outcome,
    registration_conflict, registration_password_hash, session_key, session_key_of, session_owner,
    session_owner_outcome, unauthorized, claims_of, LoginRequest, ProfileKind, RegisterRequest,
    UserRecord, unique_violation_code,
};
use crate::config::text_of;
use crate::error::{ErrorKind, Failure, AppError};
use crate::jwt::Claims;
use crate::password::{default_argon2id_prefix, hashable, password_verifies};
use crate::validation::{login_problem, register_problem, validate_login, validate_register};

verus! {

/// Where a registration stands.
#[derive(Debug)]
pub enum RegisterState {
    Start,
    /// The account row is being inserted for this user.
    AwaitingInsert { full_name: String, email: String, role: String },
    Finished,
}

/// What the service learned since the last step of a registration.
#[derive(Debug)]
pub enum RegisterEvent {
    Submitted(RegisterRequest),
    /// The insert's result: the new user id, or the database error code.
    Inserted(Result<u128, Option<String>>),
}

/// What the service does next for a registration.
#[derive(Debug)]
pub enum RegisterAction {
    /// Insert the account and its profile row (in one transaction).
    Insert { full_name: String, email: String, password_hash: String, role: String, kind: ProfileKind },
    /// Issue tokens for the new account and answer with them.
    Issue { user_id: u128, full_name: String, email: String, role: String },
    /// Answer with this error.
    Reject(AppError),
    /// Answer with the database error the insert failed with.
    DatabaseFailure,
}

/// The state and event of a registration fit together.
pub open spec fn register_in_step(state: RegisterState, event: RegisterEvent) -> bool {
    ||| state is Start && event is Submitted
    ||| state is AwaitingInsert && event is Inserted
}

/// The step a registration takes on a submitted request.
pub open spec fn register_submitted(p: RegisterRequest, r: (RegisterState, RegisterAction)) -> bool {
    let problem = register_problem(p.full_name@, p.email@, p.password@, p.role@);
    if problem is Some {
        &&& r.0 is Finished
        &&& r.1 is Reject
        &&& r.1->Reject_0@ == (Failure { kind: ErrorKind::Validation, message: problem->Some_0 })
    } else if !hashable(p.password@) {
        &&& r.0 is Finished
        &&& r.1 is Reject
        &&& r.1->Reject_0@ == (Failure { kind: ErrorKind::Internal, message: "password hashing failed"@ })
    } else {
        &&& r.0 is AwaitingInsert
        &&& r.0->AwaitingInsert_full_name@ == p.full_name@
        &&& r.0->AwaitingInsert_email@ == p.email@
        &&& r.0->AwaitingInsert_role@ == p.role@
        &&& r.1 is Insert
        &&& r.1->Insert_full_name@ == p.full_name@
        &&& r.1->Insert_email@ == p.email@
        &&& r.1->Insert_role@ == p.role@
        &&& password_verifies(p.password@, r.1->Insert_password_hash@)
        &&& default_argon2id_prefix().is_prefix_of(r.1->Insert_password_hash@)
        &&& (r.1->Insert_kind == ProfileKind::Teacher) == (p.role@ == "teacher"@)
    }
}

/// The step a registration takes on the insert's result.
pub open spec fn register_inserted(
    full_name: Seq<char>,
    email: Seq<char>,
    role: Seq<char>,
    ins: Result<u128, Option<String>>,
    r: (RegisterState, RegisterAction),
) -> bool {
    &&& r.0 is Finished
    &&& match ins {
        Ok(id) => {
            &&& r.1 is Issue
            &&& r.1->Issue_user_id == id
            &&& r.1->Issue_full_name@ == full_name
            &&& r.1->Issue_email@ == email
            &&& r.1->Issue_role@ == role
        },
        Err(code) => if code is Some && code->Some_0@ == unique_violation_code() {
            &&& r.1 is Reject
            &&& r.1->Reject_0@ == (Failure {
                kind: ErrorKind::Conflict,
                message: "An account with this email already exists."@,
            })
        } else {
            r.1 is DatabaseFailure
        },
    }
}

/// What a registration step gives for a state and an event.
pub open spec fn register_next(
    state: RegisterState,
    event: RegisterEvent,
    r: (RegisterState, RegisterAction),
) -> bool {
    match state {
        RegisterState::Start => match event {
            RegisterEvent::Submitted(p) => register_submitted(p, r),
            _ => true,
        },
        RegisterState::AwaitingInsert { full_name, email, role } => match event {
            RegisterEvent::Inserted(ins) => register_inserted(full_name@, email@, role@, ins, r),
            _ => true,
        },
        RegisterState::Finished => true,
    }
}

/// Validate, then hash the password, then insert; a unique-key violation
/// on insert is a conflict, any other insert failure a database error, and
/// a new account is issued tokens.
pub fn register_step(state: RegisterState, event: RegisterEvent) -> (r: (RegisterState, RegisterAction))
    requires
        register_in_step(state, event),
    ensures
        register_next(state, event, r),
{
    match (state, event) {
        (RegisterState::Start, RegisterEvent::Submitted(payload)) => {
            if let Err(e) = validate_register(&payload) {
                return (RegisterState::Finished, RegisterAction::Reject(e));
            }
            let password_hash = match registration_password_hash(payload.password.as_str()) {
                Ok(h) => h,
                Err(e) => {
                    return (RegisterState::Finished, RegisterAction::Reject(e));
                },
            };
            let kind = profile_kind(payload.role.as_str());
            let RegisterRequest { full_name, email, password: _, role } = payload;
            (
                RegisterState::AwaitingInsert {
                    full_name: full_name.clone(),
                    email: email.clone(),
                    role: role.clone(),
                },
                RegisterAction::Insert { full_name, email, password_hash, role, kind },
            )
        },
        (RegisterState::AwaitingInsert { full_name, email, role }, RegisterEvent::Inserted(ins)) => {
            match ins {
                Ok(user_id) => (
                    RegisterState::Finished,
                    RegisterAction::Issue { user_id, full_name, email, role },
                ),
                Err(code) => {
                    let c = match &code {
                        Some(c) => Some(c.as_str()),
                        None => None,
                    };
                    match registration_conflict(c) {
                        Some(e) => (RegisterState::Finished, RegisterAction::Reject(e)),
                        None => (RegisterState::Finished, RegisterAction::DatabaseFailure),
                    }
                },
            }
        },
        (state, _) => (state, RegisterAction::DatabaseFailure),
    }
}

/// Where a login stands.
#[derive(Debug)]
pub enum LoginState {
    Start,
    /// The account with the submitted e-mail address is being read.
    AwaitingUser { password: String },
    /// The login time of this account is being recorded.
    AwaitingRecord { user: UserRecord },
    Finished,
}

/// What the service learned since the last step of a login.
#[derive(Debug)]
pub enum LoginEvent {
    Submitted(LoginRequest),
    UserFound(Option<UserRecord>),
    LoginRecorded,
}

/// What the service does next for a login.
#[derive(Debug)]
pub enum LoginAction {
    /// Read the account with this e-mail address.
    FindUser { email: String },
    /// Record the login time of this account.
    RecordLogin { user_id: u128 },
    /// Issue tokens for this account and answer with them.
    Issue(UserRecord),
    /// Answer with this error.
    Reject(AppError),
}

/// The state and event of a login fit together.
pub open spec fn login_in_step(state: LoginState, event: LoginEvent) -> bool {
    ||| state is Start && event is Submitted
    ||| state is AwaitingUser && event is UserFound
    ||| state is AwaitingRecord && event is LoginRecorded
}

/// The step a login takes on a submitted request.
pub open spec fn login_submitted(p: LoginRequest, r: (LoginState, LoginAction)) -> bool {
    match login_problem(p.email@, p.password@) {
        Some(m) => {
            &&& r.0 is Finished
            &&& r.1 is Reject
            &&& r.1->Reject_0@ == (Failure { kind: ErrorKind::Validation, message: m })
        },
        None => {
            &&& r.0 is AwaitingUser
            &&& r.0->AwaitingUser_password@ == p.password@
            &&& r.1 is FindUser
            &&& r.1->FindUser_email@ == p.email@
        },
    }
}

/// The step a login takes on the account read by e-mail address.
pub open spec fn login_user_found(
    password: Seq<char>,
    found: Option<UserRecord>,
    r: (LoginState, LoginAction),
) -> bool {
    if found is Some && password_verifies(password, found->Some_0.password_hash@) {
        &&& r.0 is AwaitingRecord
        &&& r.0->AwaitingRecord_user == found->Some_0
        &&& r.1 is RecordLogin
        &&& r.1->RecordLogin_user_id == found->Some_0.id
    } else {
        &&& r.0 is Finished
        &&& r.1 is Reject
        &&& r.1->Reject_0@ == unauthorized("Incorrect email or password."@)
    }
}

/// What a login step gives for a state and an event.
pub open spec fn login_next(state: LoginState, event: LoginEvent, r: (LoginState, LoginAction)) -> bool {
    match state {
        LoginState::Start => match event {
            LoginEvent::Submitted(p) => login_submitted(p, r),
            _ => true,
        },
        LoginState::AwaitingUser { password } => match event {
            LoginEvent::UserFound(found) => login_user_found(password@, found, r),
            _ => true,
        },
        LoginState::AwaitingRecord { user } => match event {
            LoginEvent::LoginRecorded => {
                &&& r.0 is Finished
                &&& r.1 is Issue
                &&& r.1->Issue_0 == user
            },
            _ => true,
        },
        LoginState::Finished => true,
    }
}

/// Validate, then read the account, then check the password, then record
/// the login, then issue tokens.
pub fn login_step(state: LoginState, event: LoginEvent) -> (r: (LoginState, LoginAction))
    requires
        login_in_step(state, event),
    ensures
        login_next(state, event, r),
{
    match (state, event) {
        (LoginState::Start, LoginEvent::Submitted(payload)) => {
            if let Err(e) = validate_login(&payload) {
                return (LoginState::Finished, LoginAction::Reject(e));
            }
            let LoginRequest { email, password } = payload;
            (LoginState::AwaitingUser { password }, LoginAction::FindUser { email })
        },
        (LoginState::AwaitingUser { password }, LoginEvent::UserFound(found)) => {
            match check_login(found, password.as_str()) {
                Ok(user) => {
                    let user_id = user.id;
                    (LoginState::AwaitingRecord { user }, LoginAction::RecordLogin { user_id })
                },
                Err(e) => (LoginState::Finished, LoginAction::Reject(e)),
            }
        },
        (LoginState::AwaitingRecord { user }, LoginEvent::LoginRecorded) => {
            (LoginState::Finished, LoginAction::Issue(user))
        },
        (state, _) => (state, LoginAction::RecordLogin { user_id: 0 }),
    }
}

/// Where a token refresh stands.
#[derive(Debug)]
pub enum RefreshState {
    Start,
    /// The refresh session is being taken out of the cache (read and
    /// deleted at once) for a token with this subject.
    AwaitingSession { subject: String },
    /// The session's owner is being read.
    AwaitingUser,
    Finished,
}

/// What the service learned since the last step of a refresh.
#[derive(Debug)]
pub enum RefreshEvent {
    /// The refresh token after decoding (`None`: it did not decode, verify,
    /// or was expired).
    TokenDecoded(Option<Claims>),
    /// The user id the cache held for the session, if any.
    SessionTaken(Option<String>),
    UserFound(Option<UserRecord>),
}

/// What the service does next for a refresh.
#[derive(Debug)]
pub enum RefreshAction {
    /// Read and delete, at once, the cache entry under this key.
    TakeSession { key: String },
    /// Read the account with this id.
    FindUser { user_id: u128 },
    /// Issue tokens for this account and answer with them.
    Issue(UserRecord),
    /// Answer with this error.
    Reject(AppError),
}

/// The state and event of a refresh fit together.
pub open spec fn refresh_in_step(state: RefreshState, event: RefreshEvent) -> bool {
    ||| state is Start && event is TokenDecoded
    ||| state is AwaitingSession && event is SessionTaken
    ||| state is AwaitingUser && event is UserFound
}

/// The step a refresh takes on the decoded token.
pub open spec fn refresh_decoded(d: Option<Claims>, r: (RefreshState, RefreshAction)) -> bool {
    match refresh_session_outcome(claims_of(d)) {
        Err(f) => {
            &&& r.0 is Finished
            &&& r.1 is Reject
            &&& r.1->Reject_0@ == f
        },
        Ok(jti) => {
            &&& r.0 is AwaitingSession
            &&& r.0->AwaitingSession_subject@ == d->Some_0.sub@
            &&& r.1 is TakeSession
            &&& r.1->TakeSession_key@ == session_key_of(jti)
        },
    }
}

/// The step a refresh takes on what the cache held for the session.
pub open spec fn refresh_session_taken(
    subject: Seq<char>,
    stored: Option<String>,
    r: (RefreshState, RefreshAction),
) -> bool {
    match session_owner_outcome(text_of(stored), subject) {
        Err(f) => {
            &&& r.0 is Finished
            &&& r.1 is Reject
            &&& r.1->Reject_0@ == f
        },
        Ok(id) => {
            &&& r.0 is AwaitingUser
            &&& r.1 is FindUser
            &&& r.1->FindUser_user_id == id
        },
    }
}

/// The step a refresh takes on the account read by id.
pub open spec fn refresh_user_found(found: Option<UserRecord>, r: (RefreshState, RefreshAction)) -> bool {
    &&& r.0 is Finished
    &&& match found {
        Some(u) => r.1 is Issue && r.1->Issue_0 == u,
        None => r.1 is Reject && r.1->Reject_0@ == unauthorized("User no longer exists."@),
    }
}

/// What a refresh step gives for a state and an event.
pub open spec fn refresh_next(
    state: RefreshState,
    event: RefreshEvent,
    r: (RefreshState, RefreshAction),
) -> bool {
    match state {
        RefreshState::Start => match event {
            RefreshEvent::TokenDecoded(d) => refresh_decoded(d, r),
            _ => true,
        },
        RefreshState::AwaitingSession { subject } => match event {
            RefreshEvent::SessionTaken(stored) => refresh_session_taken(subject@, stored, r),
            _ => true,
        },
        RefreshState::AwaitingUser => match event {
            RefreshEvent::UserFound(found) => refresh_user_found(found, r),
            _ => true,
        },
        RefreshState::Finished => true,
    }
}

/// Check the token, then take its session out of the cache, then check
/// that the session belongs to the token's subject, then read the account,
/// then issue tokens. A token that is refused never touches the cache.
pub fn refresh_step(state: RefreshState, event: RefreshEvent) -> (r: (RefreshState, RefreshAction))
    requires
        refresh_in_step(state, event),
    ensures
        refresh_next(state, event, r),
{
    match (state, event) {
        (RefreshState::Start, RefreshEvent::TokenDecoded(decoded)) => {
            let subject = match &decoded {
                Some(c) => c.sub.clone(),
                None => String::new(),
            };
            match refresh_session_id(decoded) {
                Err(e) => (RefreshState::Finished, RefreshAction::Reject(e)),
                Ok(jti) => (
                    RefreshState::AwaitingSession { subject },
                    RefreshAction::TakeSession { key: session_key(jti.as_str()) },
                ),
            }
        },
        (RefreshState::AwaitingSession { subject }, RefreshEvent::SessionTaken(stored)) => {
            match session_owner(stored, subject.as_str()) {
                Err(e) => (RefreshState::Finished, RefreshAction::Reject(e)),
                Ok(user_id) => (RefreshState::AwaitingUser, RefreshAction::FindUser { user_id }),
            }
        },
        (RefreshState::AwaitingUser, RefreshEvent::UserFound(found)) => match existing_user(found) {
            Ok(u) => (RefreshState::Finished, RefreshAction::Issue(u)),
            Err(e) => (RefreshState::Finished, RefreshAction::Reject(e)),
        },
        (state, _) => (state, RefreshAction::FindUser { user_id: 0 }),
    }
}

} // verus!
