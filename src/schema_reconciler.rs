//! The PostgresSchema control loop as a state machine: each step takes what
//! the last command brought back and says what to do next.

use vstd::prelude::*;
use crate::reconcile::{
    opt_view, owner_from_role, schema_deletion_statement, schema_owner_lookup, schema_sql,
    schema_statement, texts, OwnerLookup, ReconcileAction,
};
use crate::types::{effective_namespace, PostgresRoleSpec, PostgresSchemaOwner, PostgresSchemaSpec};

verus! {

/// Where a PostgresSchema reconcile stands.
#[derive(Debug, Clone, PartialEq)]
pub enum SchemaState {
    /// Nothing has been done yet.
    Start,
    /// Deleting: waiting for the admin connection.
    DeleteConnecting,
    /// Deleting: waiting for the statement that drops the schema.
    Dropping,
    /// Deleting: waiting for the finalizer to be removed.
    RemovingFinalizer,
    /// Waiting for the finalizer to be in place.
    EnsuringFinalizer,
    /// Waiting for the PostgresRole that owns the schema.
    FetchingOwner,
    /// Waiting for the admin connection; the owner is resolved.
    Connecting { owner: Option<String> },
    /// Waiting for the schema's current owner.
    Checking { owner: Option<String> },
    /// Waiting for the statement that creates the schema or changes its owner.
    Applying,
    /// The reconcile is over.
    Done,
}

/// What came back from the last command.
#[derive(Debug, Clone, PartialEq)]
pub enum SchemaEvent {
    /// The reconcile begins; `deleting` when the object has a deletion timestamp.
    Begin { deleting: bool },
    FinalizerEnsured,
    FinalizerRemoved,
    /// The PostgresRole that owns the schema, if it exists.
    OwnerRoleFetched(Option<PostgresRoleSpec>),
    /// The admin connection is open.
    Connected,
    /// The schema's current owner; `None` when the schema does not exist.
    SchemaChecked { current_owner: Option<String> },
    /// The statements ran.
    Executed,
}

/// What to do next.
#[derive(Debug, Clone, PartialEq)]
pub enum SchemaCommand {
    EnsureFinalizer,
    RemoveFinalizer,
    /// Fetch the PostgresRole `name` in `namespace`.
    FetchOwnerRole { name: String, namespace: String },
    /// Open the admin connection the schema names.
    Connect,
    /// Ask the server for the schema's current owner.
    CheckSchema,
    /// Run these statements in order.
    Execute(Vec<String>),
    /// Stop, with this request to the scheduler.
    Finish(ReconcileAction),
}

/// The moves of the machine: the next state and the command.
pub open spec fn schema_moves(
    state: SchemaState,
    event: SchemaEvent,
    next: SchemaState,
    command: SchemaCommand,
    spec: PostgresSchemaSpec,
    own_namespace: Seq<char>,
) -> bool {
    match (state, event) {
        (SchemaState::Start, SchemaEvent::Begin { deleting }) => if deleting {
            next == SchemaState::DeleteConnecting && command == SchemaCommand::Connect
        } else {
            next == SchemaState::EnsuringFinalizer && command == SchemaCommand::EnsureFinalizer
        },
        (SchemaState::DeleteConnecting, SchemaEvent::Connected) => {
            &&& next == SchemaState::Dropping
            &&& command matches SchemaCommand::Execute(statements) && texts(statements@) == seq![
                "DROP SCHEMA IF EXISTS "@ + spec.schema@ + " CASCADE"@,
            ]
        },
        (SchemaState::Dropping, SchemaEvent::Executed) => {
            &&& next == SchemaState::RemovingFinalizer
            &&& command == SchemaCommand::RemoveFinalizer
        },
        (SchemaState::RemovingFinalizer, SchemaEvent::FinalizerRemoved) => {
            &&& next == SchemaState::Done
            &&& command == SchemaCommand::Finish(ReconcileAction::AwaitChange)
        },
        (SchemaState::EnsuringFinalizer, SchemaEvent::FinalizerEnsured) => match spec.schema_owner {
            None => next == SchemaState::Connecting { owner: None } && command
                == SchemaCommand::Connect,
            Some(PostgresSchemaOwner::Name(n)) => {
                &&& next matches SchemaState::Connecting { owner: Some(o) } && o@ == n@
                &&& command == SchemaCommand::Connect
            },
            Some(PostgresSchemaOwner::ManagedRole(reference)) => {
                &&& next == SchemaState::FetchingOwner
                &&& command matches SchemaCommand::FetchOwnerRole { name, namespace } && name@
                    == reference.name@ && namespace@ == effective_namespace(
                    reference.namespace,
                    own_namespace,
                )
            },
        },
        (SchemaState::FetchingOwner, SchemaEvent::OwnerRoleFetched(role)) => match role {
            Some(r) => {
                &&& next matches SchemaState::Connecting { owner: Some(o) } && o@ == r.role@
                &&& command == SchemaCommand::Connect
            },
            None => {
                &&& next == SchemaState::Done
                &&& command == SchemaCommand::Finish(ReconcileAction::RequeueAfterSecs(30))
            },
        },
        (SchemaState::Connecting { owner }, SchemaEvent::Connected) => {
            &&& next matches SchemaState::Checking { owner: o } && opt_view(o) == opt_view(owner)
            &&& command == SchemaCommand::CheckSchema
        },
        (SchemaState::Checking { owner }, SchemaEvent::SchemaChecked { current_owner }) => match schema_sql(
            spec.schema@,
            opt_view(current_owner),
            opt_view(owner),
        ) {
            Some(statement) => {
                &&& next == SchemaState::Applying
                &&& command matches SchemaCommand::Execute(statements) && texts(statements@)
                    == seq![statement]
            },
            None => {
                &&& next == SchemaState::Done
                &&& command == SchemaCommand::Finish(ReconcileAction::AwaitChange)
            },
        },
        (SchemaState::Applying, SchemaEvent::Executed) => {
            &&& next == SchemaState::Done
            &&& command == SchemaCommand::Finish(ReconcileAction::AwaitChange)
        },
        _ => {
            &&& next == SchemaState::Done
            &&& command == SchemaCommand::Finish(ReconcileAction::RequeueAfterSecs(15))
        },
    }
}

/// A list of one statement.
fn single(statement: String) -> (r: Vec<String>)
    ensures
        texts(r@) == seq![statement@],
{
    let mut r: Vec<String> = Vec::new();
    r.push(statement);
    assert(texts(r@) =~= seq![statement@]);
    r
}

/// One step of a PostgresSchema reconcile in `own_namespace`. Deleting:
/// connect, drop the schema, remove the finalizer. Otherwise: ensure the
/// finalizer, resolve the owner (fetching the managed role, and retrying
/// in 30 seconds while it is missing), connect, read the current owner,
/// and create the schema or hand it to the declared owner. An event that
/// does not fit the state ends the reconcile with a retry.
pub fn schema_step(
    state: &SchemaState,
    event: &SchemaEvent,
    spec: &PostgresSchemaSpec,
    own_namespace: &str,
) -> (r: (SchemaState, SchemaCommand))
    ensures
        schema_moves(*state, *event, r.0, r.1, *spec, own_namespace@),
{
    match (state, event) {
        (SchemaState::Start, SchemaEvent::Begin { deleting }) => {
            if *deleting {
                (SchemaState::DeleteConnecting, SchemaCommand::Connect)
            } else {
                (SchemaState::EnsuringFinalizer, SchemaCommand::EnsureFinalizer)
            }
        },
        (SchemaState::DeleteConnecting, SchemaEvent::Connected) => (
            SchemaState::Dropping,
            SchemaCommand::Execute(single(schema_deletion_statement(spec.schema.as_str()))),
        ),
        (SchemaState::Dropping, SchemaEvent::Executed) => (
            SchemaState::RemovingFinalizer,
            SchemaCommand::RemoveFinalizer,
        ),
        (SchemaState::RemovingFinalizer, SchemaEvent::FinalizerRemoved) => (
            SchemaState::Done,
            SchemaCommand::Finish(ReconcileAction::AwaitChange),
        ),
        (SchemaState::EnsuringFinalizer, SchemaEvent::FinalizerEnsured) => match schema_owner_lookup(
            &spec.schema_owner,
            own_namespace,
        ) {
            OwnerLookup::NoOwner => (
                SchemaState::Connecting { owner: None },
                SchemaCommand::Connect,
            ),
            OwnerLookup::Named(n) => (
                SchemaState::Connecting { owner: Some(n) },
                SchemaCommand::Connect,
            ),
            OwnerLookup::Role { name, namespace } => (
                SchemaState::FetchingOwner,
                SchemaCommand::FetchOwnerRole { name, namespace },
            ),
        },
        (SchemaState::FetchingOwner, SchemaEvent::OwnerRoleFetched(role)) => match owner_from_role(
            role.as_ref(),
        ) {
            Ok(owner) => (SchemaState::Connecting { owner: Some(owner) }, SchemaCommand::Connect),
            Err(action) => (SchemaState::Done, SchemaCommand::Finish(action)),
        },
        (SchemaState::Connecting { owner }, SchemaEvent::Connected) => (
            SchemaState::Checking { owner: owner.clone() },
            SchemaCommand::CheckSchema,
        ),
        (SchemaState::Checking { owner }, SchemaEvent::SchemaChecked { current_owner }) => {
            match schema_statement(spec.schema.as_str(), current_owner, owner) {
                Some(statement) => (SchemaState::Applying, SchemaCommand::Execute(single(statement))),
                None => (SchemaState::Done, SchemaCommand::Finish(ReconcileAction::AwaitChange)),
            }
        },
        (SchemaState::Applying, SchemaEvent::Executed) => (
            SchemaState::Done,
            SchemaCommand::Finish(ReconcileAction::AwaitChange),
        ),
        _ => (SchemaState::Done, SchemaCommand::Finish(ReconcileAction::RequeueAfterSecs(15))),
    }
}

} // verus!
