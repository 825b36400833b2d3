//! The PostgresRole control loop as a state machine: each step takes what
//! the last command brought back and says what to do next.

use vstd::prelude::*;
use crate::reconcile::{
    is_registration_of, registered_pg_bouncer_user, role_apply_sql, role_apply_statements, role_deletion_sql,
    role_deletion_statements, texts, ChildMetadata, ParentResource, ReconcileAction,
};
use crate::postgres_password::SCRAM_DEFAULT_SALT_LEN;
use crate::types::{PgBouncerUserSpec, PostgresRoleSpec};

verus! {

/// Where a PostgresRole reconcile stands.
#[derive(Debug, Clone, PartialEq)]
pub enum RoleState {
    /// Nothing has been done yet.
    Start,
    /// Deleting: waiting for the admin connection.
    DeleteConnecting,
    /// Deleting: waiting to learn whether the role exists.
    DeleteChecking { database: String },
    /// Deleting: waiting for the statements that drop the role.
    Dropping,
    /// Deleting: waiting for the finalizer to be removed.
    RemovingFinalizer,
    /// Waiting for the finalizer to be in place.
    EnsuringFinalizer,
    /// Waiting for the admin connection.
    Connecting,
    /// Waiting to learn whether the role exists.
    Checking { admin_username: String, database: String },
    /// Waiting for the statements that create or update the role.
    Applying,
    /// Waiting for the PgBouncerUser to be written.
    Registering,
    /// The reconcile is over.
    Done,
}

/// What came back from the last command.
#[derive(Debug, Clone, PartialEq)]
pub enum RoleEvent {
    /// The reconcile begins; `deleting` when the object has a deletion timestamp.
    Begin { deleting: bool },
    FinalizerEnsured,
    FinalizerRemoved,
    /// The admin connection is open.
    Connected { admin_username: String, database: String },
    /// Whether the role exists on the server.
    RoleChecked { exists: bool },
    /// The statements ran.
    Executed,
    /// The PgBouncerUser was written.
    UserRegistered,
}

/// What to do next.
#[derive(Debug, Clone, PartialEq)]
pub enum RoleCommand {
    EnsureFinalizer,
    RemoveFinalizer,
    /// Open the admin connection the role names.
    Connect,
    /// Ask the server whether the role exists.
    CheckRole,
    /// Run these statements in order.
    Execute(Vec<String>),
    /// Server-side apply this PgBouncerUser.
    RegisterUser(ChildMetadata, PgBouncerUserSpec),
    /// Stop, with this request to the scheduler.
    Finish(ReconcileAction),
}

/// The moves of the machine that do not depend on the password: the next
/// state and a description of the command.
pub open spec fn role_moves(
    state: RoleState,
    event: RoleEvent,
    next: RoleState,
    command: RoleCommand,
    spec: PostgresRoleSpec,
    parent: ParentResource,
) -> bool {
    match (state, event) {
        (RoleState::Start, RoleEvent::Begin { deleting }) => if deleting {
            next == RoleState::DeleteConnecting && command == RoleCommand::Connect
        } else {
            next == RoleState::EnsuringFinalizer && command == RoleCommand::EnsureFinalizer
        },
        (RoleState::DeleteConnecting, RoleEvent::Connected { admin_username, database }) => {
            &&& next matches RoleState::DeleteChecking { database: d } && d@ == database@
            &&& command == RoleCommand::CheckRole
        },
        (RoleState::DeleteChecking { database }, RoleEvent::RoleChecked { exists }) => {
            &&& next == RoleState::Dropping
            &&& command matches RoleCommand::Execute(statements) && texts(statements@)
                == role_deletion_sql(spec.role@, database@, exists)
        },
        (RoleState::Dropping, RoleEvent::Executed) => {
            &&& next == RoleState::RemovingFinalizer
            &&& command == RoleCommand::RemoveFinalizer
        },
        (RoleState::RemovingFinalizer, RoleEvent::FinalizerRemoved) => {
            &&& next == RoleState::Done
            &&& command == RoleCommand::Finish(ReconcileAction::AwaitChange)
        },
        (RoleState::EnsuringFinalizer, RoleEvent::FinalizerEnsured) => {
            &&& next == RoleState::Connecting
            &&& command == RoleCommand::Connect
        },
        (RoleState::Connecting, RoleEvent::Connected { admin_username, database }) => {
            &&& next matches RoleState::Checking { admin_username: a, database: d } && a@
                == admin_username@ && d@ == database@
            &&& command == RoleCommand::CheckRole
        },
        (RoleState::Checking { admin_username, database }, RoleEvent::RoleChecked { exists }) => {
            &&& next == RoleState::Applying
            &&& command matches RoleCommand::Execute(statements) && exists|salt: Seq<u8>|
                salt.len() == SCRAM_DEFAULT_SALT_LEN && texts(statements@) == role_apply_sql(
                    spec.role@,
                    spec.password.password_text(spec.role@, salt),
                    admin_username@,
                    database@,
                    exists,
                    spec.grant_role_to_admin_user,
                )
        },
        (RoleState::Applying, RoleEvent::Executed) => match spec.register_in_pg_bouncer {
            Some(_) => {
                &&& next == RoleState::Registering
                &&& command matches RoleCommand::RegisterUser(meta, user) && is_registration_of(
                    parent,
                    spec,
                    meta,
                    user,
                )
            },
            None => next == RoleState::Done && command == RoleCommand::Finish(
                ReconcileAction::AwaitChange,
            ),
        },
        (RoleState::Registering, RoleEvent::UserRegistered) => next == RoleState::Done && command
            == RoleCommand::Finish(ReconcileAction::AwaitChange),
        _ => next == RoleState::Done && command == RoleCommand::Finish(
            ReconcileAction::RequeueAfterSecs(15),
        ),
    }
}

/// One step of a PostgresRole reconcile. Deleting: connect, check that
/// the role exists, revoke and drop it, remove the finalizer. Otherwise:
/// ensure the finalizer, connect, check the role, set its password and
/// grants, and register it with its PgBouncer when it names one. An event
/// that does not fit the state ends the reconcile with a retry.
pub fn role_step(
    state: &RoleState,
    event: &RoleEvent,
    spec: &PostgresRoleSpec,
    parent: &ParentResource,
) -> (r: (RoleState, RoleCommand))
    ensures
        role_moves(*state, *event, r.0, r.1, *spec, *parent),
{
    match (state, event) {
        (RoleState::Start, RoleEvent::Begin { deleting }) => {
            if *deleting {
                (RoleState::DeleteConnecting, RoleCommand::Connect)
            } else {
                (RoleState::EnsuringFinalizer, RoleCommand::EnsureFinalizer)
            }
        },
        (RoleState::DeleteConnecting, RoleEvent::Connected { admin_username: _, database }) => (
            RoleState::DeleteChecking { database: database.clone() },
            RoleCommand::CheckRole,
        ),
        (RoleState::DeleteChecking { database }, RoleEvent::RoleChecked { exists }) => (
            RoleState::Dropping,
            RoleCommand::Execute(
                role_deletion_statements(spec.role.as_str(), database.as_str(), *exists),
            ),
        ),
        (RoleState::Dropping, RoleEvent::Executed) => (
            RoleState::RemovingFinalizer,
            RoleCommand::RemoveFinalizer,
        ),
        (RoleState::RemovingFinalizer, RoleEvent::FinalizerRemoved) => (
            RoleState::Done,
            RoleCommand::Finish(ReconcileAction::AwaitChange),
        ),
        (RoleState::EnsuringFinalizer, RoleEvent::FinalizerEnsured) => (
            RoleState::Connecting,
            RoleCommand::Connect,
        ),
        (RoleState::Connecting, RoleEvent::Connected { admin_username, database }) => (
            RoleState::Checking {
                admin_username: admin_username.clone(),
                database: database.clone(),
            },
            RoleCommand::CheckRole,
        ),
        (RoleState::Checking { admin_username, database }, RoleEvent::RoleChecked { exists }) => {
            let password_text = spec.password.get_password_text(spec.role.as_str());
            let statements = role_apply_statements(
                spec.role.as_str(),
                password_text.as_str(),
                admin_username.as_str(),
                database.as_str(),
                *exists,
                spec.grant_role_to_admin_user,
            );
            (RoleState::Applying, RoleCommand::Execute(statements))
        },
        (RoleState::Applying, RoleEvent::Executed) => match registered_pg_bouncer_user(
            parent,
            spec,
        ) {
            Some((meta, user)) => (RoleState::Registering, RoleCommand::RegisterUser(meta, user)),
            None => (RoleState::Done, RoleCommand::Finish(ReconcileAction::AwaitChange)),
        },
        (RoleState::Registering, RoleEvent::UserRegistered) => (
            RoleState::Done,
            RoleCommand::Finish(ReconcileAction::AwaitChange),
        ),
        _ => (RoleState::Done, RoleCommand::Finish(ReconcileAction::RequeueAfterSecs(15))),
    }
}

} // verus!
