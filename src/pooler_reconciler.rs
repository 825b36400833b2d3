//! The PgBouncer control loop as a state machine: each step takes what the
//! last command brought back and says what to do next.

use vstd::prelude::*;
use crate::pooler_config::{
    create_pg_bouncer_ini, create_user_list, pgbouncer_ini, sorted_by_name, user_lines,
    userlist_hash,
};
use crate::postgres_password::SCRAM_DEFAULT_SALT_LEN;
use crate::reconcile::{
    config_map_action, config_map_decision, is_children_of, pg_bouncer_children, ConfigMapAction,
    ExistingConfigMap, ParentResource, PgBouncerChildren, ReconcileAction,
};
use crate::types::{belongs_to, is_for, PgBouncerDatabaseSpec, PgBouncerSpec, PgBouncerUserSpec};

verus! {

/// The routes, among those listed with their namespaces, that belong to
/// the PgBouncer `name` in `namespace`, in listing order.
pub open spec fn routes_for(
    listed: Seq<(String, PgBouncerDatabaseSpec)>,
    name: Seq<char>,
    namespace: Seq<char>,
) -> Seq<PgBouncerDatabaseSpec>
    decreases listed.len(),
{
    if listed.len() == 0 {
        Seq::empty()
    } else {
        let rest = routes_for(listed.drop_last(), name, namespace);
        let last = listed.last();
        if belongs_to(Some(last.1.pg_bouncer), last.0@, name, namespace) {
            rest.push(last.1)
        } else {
            rest
        }
    }
}

/// The users, among those listed with their namespaces, that belong to
/// the PgBouncer `name` in `namespace`, in listing order.
pub open spec fn users_for(
    listed: Seq<(String, PgBouncerUserSpec)>,
    name: Seq<char>,
    namespace: Seq<char>,
) -> Seq<PgBouncerUserSpec>
    decreases listed.len(),
{
    if listed.len() == 0 {
        Seq::empty()
    } else {
        let rest = users_for(listed.drop_last(), name, namespace);
        let last = listed.last();
        if belongs_to(Some(last.1.pg_bouncer), last.0@, name, namespace) {
            rest.push(last.1)
        } else {
            rest
        }
    }
}

/// Keeps the routes that belong to the PgBouncer `name` in `namespace`.
pub fn select_databases(
    name: &str,
    namespace: &str,
    listed: &Vec<(String, PgBouncerDatabaseSpec)>,
) -> (r: Vec<PgBouncerDatabaseSpec>)
    ensures
        r@ == routes_for(listed@, name@, namespace@),
{
    let mut r: Vec<PgBouncerDatabaseSpec> = Vec::new();
    let mut i: usize = 0;
    while i < listed.len()
        invariant
            i <= listed@.len(),
            r@ == routes_for(listed@.subrange(0, i as int), name@, namespace@),
        decreases listed@.len() - i,
    {
        let (ns, db) = &listed[i];
        if is_for(Some(&db.pg_bouncer), ns.as_str(), name, namespace) {
            r.push(db.duplicate());
        }
        assert(listed@.subrange(0, i + 1).drop_last() =~= listed@.subrange(0, i as int));
        i = i + 1;
    }
    assert(listed@.subrange(0, listed@.len() as int) =~= listed@);
    r
}

/// Keeps the users that belong to the PgBouncer `name` in `namespace`.
pub fn select_users(name: &str, namespace: &str, listed: &Vec<(String, PgBouncerUserSpec)>) -> (r:
    Vec<PgBouncerUserSpec>)
    ensures
        r@ == users_for(listed@, name@, namespace@),
{
    let mut r: Vec<PgBouncerUserSpec> = Vec::new();
    let mut i: usize = 0;
    while i < listed.len()
        invariant
            i <= listed@.len(),
            r@ == users_for(listed@.subrange(0, i as int), name@, namespace@),
        decreases listed@.len() - i,
    {
        let (ns, user) = &listed[i];
        if is_for(Some(&user.pg_bouncer), ns.as_str(), name, namespace) {
            r.push(user.duplicate());
        }
        assert(listed@.subrange(0, i + 1).drop_last() =~= listed@.subrange(0, i as int));
        i = i + 1;
    }
    assert(listed@.subrange(0, listed@.len() as int) =~= listed@);
    r
}

/// Everything the pooler's objects are written from.
#[derive(Debug, Clone, PartialEq)]
pub struct PoolerConfig {
    pub pgbouncer_ini: String,
    pub userlist_txt: String,
    pub userlist_hash: String,
    pub children: PgBouncerChildren,
}

/// `config` is what the PgBouncer `parent` with `spec` is written from,
/// given the routes and users listed cluster-wide.
pub open spec fn is_config_of(
    config: PoolerConfig,
    parent: ParentResource,
    spec: PgBouncerSpec,
    databases: Seq<(String, PgBouncerDatabaseSpec)>,
    users: Seq<(String, PgBouncerUserSpec)>,
) -> bool {
    let mine = users_for(users, parent.name@, parent.namespace@);
    &&& config.pgbouncer_ini@ == pgbouncer_ini(
        spec,
        routes_for(databases, parent.name@, parent.namespace@),
    )
    &&& exists|salts: Seq<Seq<u8>>|
        salts.len() == mine.len() && (forall|k: int|
            0 <= k < salts.len() ==> (#[trigger] salts[k]).len() == SCRAM_DEFAULT_SALT_LEN)
            && config.userlist_txt@ == user_lines(sorted_by_name(mine), salts)
    &&& config.userlist_hash@ == userlist_hash(mine)
    &&& is_children_of(config.children, parent, spec)
}

/// Where a PgBouncer reconcile stands.
#[derive(Debug, Clone, PartialEq)]
pub enum PoolerState {
    /// Nothing has been done yet.
    Start,
    /// Waiting for the routes and users of the whole cluster.
    Listing,
    /// Waiting for the current ConfigMap.
    FetchingConfigMap(PoolerConfig),
    /// Waiting for the ConfigMap to be written.
    ApplyingConfigMap(PoolerConfig),
    /// Waiting for the Deployment to be written.
    ApplyingDeployment(PoolerConfig),
    /// Waiting for the Service to be written.
    ApplyingService(PoolerConfig),
    /// The reconcile is over.
    Done,
}

impl PoolerState {
    /// The configuration the pooler's objects are written from, once known.
    pub fn config(&self) -> (r: Option<&PoolerConfig>)
        ensures
            match *self {
                PoolerState::FetchingConfigMap(c) => r == Some(&c),
                PoolerState::ApplyingConfigMap(c) => r == Some(&c),
                PoolerState::ApplyingDeployment(c) => r == Some(&c),
                PoolerState::ApplyingService(c) => r == Some(&c),
                _ => r is None,
            },
    {
        match self {
            PoolerState::FetchingConfigMap(c) => Some(c),
            PoolerState::ApplyingConfigMap(c) => Some(c),
            PoolerState::ApplyingDeployment(c) => Some(c),
            PoolerState::ApplyingService(c) => Some(c),
            _ => None,
        }
    }
}

/// What came back from the last command.
#[derive(Debug, Clone, PartialEq)]
pub enum PoolerEvent {
    /// The reconcile begins; `deleting` when the object has a deletion timestamp.
    Begin { deleting: bool },
    /// Every route and user of the cluster, each with its namespace.
    Listed {
        databases: Vec<(String, PgBouncerDatabaseSpec)>,
        users: Vec<(String, PgBouncerUserSpec)>,
    },
    /// What the ConfigMap holds now.
    ConfigMapFetched(ExistingConfigMap),
    ConfigMapApplied,
    DeploymentApplied,
    ServiceApplied,
}

/// What to do next.
#[derive(Debug, Clone, PartialEq)]
pub enum PoolerCommand {
    /// List every route and user of the cluster.
    ListResources,
    /// Read the ConfigMap of this name.
    FetchConfigMap { name: String },
    /// Server-side apply the ConfigMap, from the configuration the new
    /// state holds.
    ApplyConfigMap,
    /// Server-side apply the Deployment, likewise.
    ApplyDeployment,
    /// Server-side apply the Service, likewise.
    ApplyService,
    /// Stop, with this request to the scheduler.
    Finish(ReconcileAction),
}

/// The moves of the machine: the next state and the command.
pub open spec fn pooler_moves(
    state: PoolerState,
    event: PoolerEvent,
    next: PoolerState,
    command: PoolerCommand,
    parent: ParentResource,
    spec: PgBouncerSpec,
) -> bool {
    match (state, event) {
        (PoolerState::Start, PoolerEvent::Begin { deleting }) => if deleting {
            next == PoolerState::Done && command == PoolerCommand::Finish(
                ReconcileAction::AwaitChange,
            )
        } else {
            next == PoolerState::Listing && command == PoolerCommand::ListResources
        },
        (PoolerState::Listing, PoolerEvent::Listed { databases, users }) => {
            &&& next matches PoolerState::FetchingConfigMap(config) && is_config_of(
                config,
                parent,
                spec,
                databases@,
                users@,
            )
            &&& command matches PoolerCommand::FetchConfigMap { name } && name@ == parent.name@
                + "-config"@
        },
        (PoolerState::FetchingConfigMap(config), PoolerEvent::ConfigMapFetched(existing)) => {
            if config_map_decision(existing, config.pgbouncer_ini@, config.userlist_hash@)
                == ConfigMapAction::Keep {
                next == PoolerState::ApplyingDeployment(config) && command
                    == PoolerCommand::ApplyDeployment
            } else {
                next == PoolerState::ApplyingConfigMap(config) && command
                    == PoolerCommand::ApplyConfigMap
            }
        },
        (PoolerState::ApplyingConfigMap(config), PoolerEvent::ConfigMapApplied) => {
            &&& next == PoolerState::ApplyingDeployment(config)
            &&& command == PoolerCommand::ApplyDeployment
        },
        (PoolerState::ApplyingDeployment(config), PoolerEvent::DeploymentApplied) => {
            &&& next == PoolerState::ApplyingService(config)
            &&& command == PoolerCommand::ApplyService
        },
        (PoolerState::ApplyingService(_), PoolerEvent::ServiceApplied) => {
            &&& next == PoolerState::Done
            &&& command == PoolerCommand::Finish(ReconcileAction::AwaitChange)
        },
        _ => {
            &&& next == PoolerState::Done
            &&& command == PoolerCommand::Finish(ReconcileAction::RequeueAfterSecs(15))
        },
    }
}

/// One step of a PgBouncer reconcile. A PgBouncer being deleted is left to
/// garbage collection. Otherwise: list routes and users, keep those that
/// belong to it, render the configuration, write the ConfigMap unless it
/// already holds that configuration and fingerprint, then the Deployment
/// and the Service. An event that does not fit the state ends the
/// reconcile with a retry.
pub fn pooler_step(
    state: PoolerState,
    event: PoolerEvent,
    parent: &ParentResource,
    spec: &PgBouncerSpec,
) -> (r: (PoolerState, PoolerCommand))
    ensures
        pooler_moves(state, event, r.0, r.1, *parent, *spec),
{
    match (state, event) {
        (PoolerState::Start, PoolerEvent::Begin { deleting }) => {
            if deleting {
                (PoolerState::Done, PoolerCommand::Finish(ReconcileAction::AwaitChange))
            } else {
                (PoolerState::Listing, PoolerCommand::ListResources)
            }
        },
        (PoolerState::Listing, PoolerEvent::Listed { databases, users }) => {
            let mine_databases = select_databases(
                parent.name.as_str(),
                parent.namespace.as_str(),
                &databases,
            );
            let mine_users = select_users(parent.name.as_str(), parent.namespace.as_str(), &users);
            let pgbouncer_ini = create_pg_bouncer_ini(spec, &mine_databases);
            let (userlist_txt, userlist_hash) = create_user_list(&mine_users);
            let children = pg_bouncer_children(parent, spec);
            let name = children.config_map.name.clone();
            let config = PoolerConfig { pgbouncer_ini, userlist_txt, userlist_hash, children };
            (PoolerState::FetchingConfigMap(config), PoolerCommand::FetchConfigMap { name })
        },
        (PoolerState::FetchingConfigMap(config), PoolerEvent::ConfigMapFetched(existing)) => {
            let action = config_map_action(
                &existing,
                config.pgbouncer_ini.as_str(),
                config.userlist_hash.as_str(),
            );
            if action == ConfigMapAction::Keep {
                (PoolerState::ApplyingDeployment(config), PoolerCommand::ApplyDeployment)
            } else {
                (PoolerState::ApplyingConfigMap(config), PoolerCommand::ApplyConfigMap)
            }
        },
        (PoolerState::ApplyingConfigMap(config), PoolerEvent::ConfigMapApplied) => (
            PoolerState::ApplyingDeployment(config),
            PoolerCommand::ApplyDeployment,
        ),
        (PoolerState::ApplyingDeployment(config), PoolerEvent::DeploymentApplied) => (
            PoolerState::ApplyingService(config),
            PoolerCommand::ApplyService,
        ),
        (PoolerState::ApplyingService(_), PoolerEvent::ServiceApplied) => (
            PoolerState::Done,
            PoolerCommand::Finish(ReconcileAction::AwaitChange),
        ),
        _ => (PoolerState::Done, PoolerCommand::Finish(ReconcileAction::RequeueAfterSecs(15))),
    }
}

} // verus!
