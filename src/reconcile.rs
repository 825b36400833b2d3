//! The decisions of the three control loops, from observed state to the
//! writes to make. Performing the writes is left to the caller.

use vstd::prelude::*;
use vstd::string::StringExecFns;
use crate::types::{
    effective_namespace, same_text, PgBouncerSpec, PgBouncerUserSpec,
    PostgresRoleSpec, PostgresSchemaOwner,
};

verus! {

/// What a control loop asks of its scheduler after a reconcile.
#[derive(Debug, Clone, Copy, PartialEq, Eq, Structural)]
pub enum ReconcileAction {
    /// Wait for the next change of a watched object.
    AwaitChange,
    /// Run again after this many seconds.
    RequeueAfterSecs(u64),
}

/// After a failed reconcile the object is tried again in 15 seconds.
pub fn error_policy() -> (r: ReconcileAction)
    ensures
        r == ReconcileAction::RequeueAfterSecs(15),
{
    ReconcileAction::RequeueAfterSecs(15)
}

/// The finalizer put on PostgresRole and PostgresSchema objects.
pub fn finalizer_name() -> (r: &'static str)
    ensures
        r@ == "postgres.digizuite.com/finalizer"@,
{
    "postgres.digizuite.com/finalizer"
}

/// The field manager of every server-side apply.
pub fn field_manager() -> (r: &'static str)
    ensures
        r@ == "postgres-topology-operator"@,
{
    "postgres-topology-operator"
}

/// The finalizer is added when the object has none.
pub fn needs_finalizer(finalizers: &Option<Vec<String>>) -> (r: bool)
    ensures
        r == match finalizers {
            Some(f) => f@.len() == 0,
            None => true,
        },
{
    match finalizers {
        Some(f) => f.len() == 0,
        None => true,
    }
}

/// Why a write to the Kubernetes API failed.
#[derive(Debug, Clone, Copy, PartialEq, Eq, Structural)]
pub enum ApiFailure {
    /// The server answered with this HTTP status.
    Status(u16),
    /// No answer came.
    Transport,
}

/// Whether removing the finalizer succeeded, given how the patch failed, if
/// it did: an object that is gone (404) no longer needs it.
pub fn finalizer_removal_succeeded(failure: &Option<ApiFailure>) -> (r: bool)
    ensures
        r == match failure {
            None => true,
            Some(ApiFailure::Status(code)) => code == 404,
            Some(ApiFailure::Transport) => false,
        },
{
    match failure {
        None => true,
        Some(ApiFailure::Status(code)) => *code == 404,
        Some(ApiFailure::Transport) => false,
    }
}

/// `a` followed by `b`.
fn joined(a: &str, b: &str) -> (r: String)
    ensures
        r@ == a@ + b@,
{
    let mut r = a.to_owned();
    r.append(b);
    r
}

/// `a b c` glued: `a` then `b` then `c`.
fn joined3(a: &str, b: &str, c: &str) -> (r: String)
    ensures
        r@ == a@ + b@ + c@,
{
    let mut r = a.to_owned();
    r.append(b);
    r.append(c);
    r
}

/// `a b c d` glued in order.
fn joined4(a: &str, b: &str, c: &str, d: &str) -> (r: String)
    ensures
        r@ == a@ + b@ + c@ + d@,
{
    let mut r = a.to_owned();
    r.append(b);
    r.append(c);
    r.append(d);
    r
}

/// `a b c d e` glued in order.
fn joined5(a: &str, b: &str, c: &str, d: &str, e: &str) -> (r: String)
    ensures
        r@ == a@ + b@ + c@ + d@ + e@,
{
    let mut r = a.to_owned();
    r.append(b);
    r.append(c);
    r.append(d);
    r.append(e);
    r
}

/// The statements that drop a role: none when it does not exist.
pub open spec fn role_deletion_sql(role: Seq<char>, database: Seq<char>, exists: bool) -> Seq<
    Seq<char>,
> {
    if exists {
        seq![
            "REVOKE ALL PRIVILEGES ON DATABASE "@ + database + " FROM "@ + role + " CASCADE"@,
            "DROP ROLE "@ + role,
        ]
    } else {
        Seq::empty()
    }
}

/// The views of a list of statements.
pub open spec fn texts(v: Seq<String>) -> Seq<Seq<char>> {
    v.map_values(|s: String| s@)
}

/// The statements run when a PostgresRole is deleted: revoke the role's
/// privileges on the admin database, then drop it; nothing when the role
/// does not exist.
pub fn role_deletion_statements(role: &str, database: &str, role_exists: bool) -> (r: Vec<String>)
    ensures
        texts(r@) == role_deletion_sql(role@, database@, role_exists),
{
    let mut r: Vec<String> = Vec::new();
    if role_exists {
        r.push(joined5("REVOKE ALL PRIVILEGES ON DATABASE ", database, " FROM ", role, " CASCADE"));
        r.push(joined("DROP ROLE ", role));
    }
    assert(texts(r@) =~= role_deletion_sql(role@, database@, role_exists));
    r
}

/// The statements that create or update a role: set its password, grant it
/// to the admin user when asked, and let it connect to the admin database.
pub open spec fn role_apply_sql(
    role: Seq<char>,
    password_text: Seq<char>,
    admin_username: Seq<char>,
    database: Seq<char>,
    exists: bool,
    grant_to_admin: Option<bool>,
) -> Seq<Seq<char>> {
    let set_password = if exists {
        "ALTER USER "@ + role + " WITH PASSWORD '"@ + password_text + "'"@
    } else {
        "CREATE USER "@ + role + " WITH PASSWORD '"@ + password_text + "'"@
    };
    let grant: Seq<Seq<char>> = if grant_to_admin == Some(true) {
        seq!["GRANT "@ + role + " TO "@ + admin_username]
    } else {
        Seq::empty()
    };
    seq![set_password] + grant + seq!["GRANT CONNECT ON DATABASE "@ + database + " TO "@ + role]
}

/// The statements run for a PostgresRole that is not being deleted.
pub fn role_apply_statements(
    role: &str,
    password_text: &str,
    admin_username: &str,
    database: &str,
    role_exists: bool,
    grant_role_to_admin_user: Option<bool>,
) -> (r: Vec<String>)
    ensures
        texts(r@) == role_apply_sql(
            role@,
            password_text@,
            admin_username@,
            database@,
            role_exists,
            grant_role_to_admin_user,
        ),
{
    let mut r: Vec<String> = Vec::new();
    if role_exists {
        r.push(joined5("ALTER USER ", role, " WITH PASSWORD '", password_text, "'"));
    } else {
        r.push(joined5("CREATE USER ", role, " WITH PASSWORD '", password_text, "'"));
    }
    if grant_role_to_admin_user == Some(true) {
        r.push(joined4("GRANT ", role, " TO ", admin_username));
    }
    r.push(joined4("GRANT CONNECT ON DATABASE ", database, " TO ", role));
    assert(texts(r@) =~= role_apply_sql(
        role@,
        password_text@,
        admin_username@,
        database@,
        role_exists,
        grant_role_to_admin_user,
    ));
    r
}

/// The statement that drops a schema and what it holds.
pub fn schema_deletion_statement(schema: &str) -> (r: String)
    ensures
        r@ == "DROP SCHEMA IF EXISTS "@ + schema@ + " CASCADE"@,
{
    joined3("DROP SCHEMA IF EXISTS ", schema, " CASCADE")
}

/// The statement that brings a schema to its declared state, given its
/// current owner (`None`: the schema does not exist) and the declared one.
pub open spec fn schema_sql(
    schema: Seq<char>,
    current_owner: Option<Seq<char>>,
    owner: Option<Seq<char>>,
) -> Option<Seq<char>> {
    match (current_owner, owner) {
        (None, None) => Some("CREATE SCHEMA IF NOT EXISTS "@ + schema),
        (None, Some(o)) => Some("CREATE SCHEMA IF NOT EXISTS "@ + schema + " AUTHORIZATION "@ + o),
        (Some(_), None) => None,
        (Some(c), Some(o)) => if c == o {
            None
        } else {
            Some("ALTER SCHEMA "@ + schema + " OWNER TO "@ + o)
        },
    }
}

pub open spec fn opt_view(o: Option<String>) -> Option<Seq<char>> {
    match o {
        Some(s) => Some(s@),
        None => None,
    }
}

/// The statement to run for a PostgresSchema that is not being deleted,
/// if any: create a missing schema (with its owner, when one is declared),
/// or hand an existing one to a different declared owner.
pub fn schema_statement(schema: &str, current_owner: &Option<String>, owner: &Option<String>) -> (r:
    Option<String>)
    ensures
        opt_view(r) == schema_sql(schema@, opt_view(*current_owner), opt_view(*owner)),
{
    match (current_owner, owner) {
        (None, None) => Some(joined("CREATE SCHEMA IF NOT EXISTS ", schema)),
        (None, Some(o)) => Some(
            joined4("CREATE SCHEMA IF NOT EXISTS ", schema, " AUTHORIZATION ", o),
        ),
        (Some(_), None) => None,
        (Some(c), Some(o)) => {
            if same_text(c.as_str(), o.as_str()) {
                None
            } else {
                Some(joined4("ALTER SCHEMA ", schema, " OWNER TO ", o))
            }
        },
    }
}

/// How the owner of a schema is found.
#[derive(Debug, Clone, PartialEq)]
pub enum OwnerLookup {
    /// No owner is declared.
    NoOwner,
    /// The owner is named directly.
    Named(String),
    /// The owner is the role of this PostgresRole, still to be fetched.
    Role { name: String, namespace: String },
}

/// Where the owner of a schema in `own_namespace` comes from.
pub fn schema_owner_lookup(owner: &Option<PostgresSchemaOwner>, own_namespace: &str) -> (r:
    OwnerLookup)
    ensures
        match *owner {
            None => r == OwnerLookup::NoOwner,
            Some(PostgresSchemaOwner::Name(n)) => r matches OwnerLookup::Named(m) && m@ == n@,
            Some(PostgresSchemaOwner::ManagedRole(reference)) => r matches OwnerLookup::Role {
                name,
                namespace,
            } && name@ == reference.name@ && namespace@ == effective_namespace(
                reference.namespace,
                own_namespace@,
            ),
        },
{
    match owner {
        None => OwnerLookup::NoOwner,
        Some(PostgresSchemaOwner::Name(n)) => OwnerLookup::Named(n.clone()),
        Some(PostgresSchemaOwner::ManagedRole(reference)) => {
            let namespace = match &reference.namespace {
                Some(ns) => ns.clone(),
                None => own_namespace.to_owned(),
            };
            OwnerLookup::Role { name: reference.name.clone(), namespace }
        },
    }
}

/// The owner once the managed role was looked up: its role name, or a
/// retry in 30 seconds while the PostgresRole does not exist yet.
pub fn owner_from_role(role: Option<&PostgresRoleSpec>) -> (r: Result<String, ReconcileAction>)
    ensures
        match role {
            Some(spec) => r matches Ok(name) && name@ == spec.role@,
            None => r == Err::<String, ReconcileAction>(ReconcileAction::RequeueAfterSecs(30)),
        },
{
    match role {
        Some(spec) => Ok(spec.role.clone()),
        None => Err(ReconcileAction::RequeueAfterSecs(30)),
    }
}

/// What the pooler's ConfigMap holds now.
#[derive(Debug, Clone, PartialEq)]
pub enum ExistingConfigMap {
    /// There is no ConfigMap yet.
    Absent,
    /// The ConfigMap exists without data.
    NoData,
    /// The ConfigMap's `pgbouncer.ini` and `userlisthash` entries.
    Data { pgbouncer_ini: Option<String>, userlist_hash: Option<String> },
}

/// What is done to the pooler's ConfigMap.
#[derive(Debug, Clone, Copy, PartialEq, Eq, Structural)]
pub enum ConfigMapAction {
    Create,
    Update,
    Keep,
}

/// What is done to the ConfigMap, given what it holds and the computed
/// configuration and fingerprint.
pub open spec fn config_map_decision(
    existing: ExistingConfigMap,
    ini: Seq<char>,
    hash: Seq<char>,
) -> ConfigMapAction {
    match existing {
        ExistingConfigMap::Absent => ConfigMapAction::Create,
        ExistingConfigMap::NoData => ConfigMapAction::Update,
        ExistingConfigMap::Data { pgbouncer_ini, userlist_hash } => if opt_view(pgbouncer_ini)
            == Some(ini) && opt_view(userlist_hash) == Some(hash) {
            ConfigMapAction::Keep
        } else {
            ConfigMapAction::Update
        },
    }
}

/// The ConfigMap is created when absent, updated when its configuration
/// or its user-list fingerprint differs from the computed one, and kept
/// otherwise.
pub fn config_map_action(existing: &ExistingConfigMap, ini: &str, hash: &str) -> (r:
    ConfigMapAction)
    ensures
        r == config_map_decision(*existing, ini@, hash@),
{
    match existing {
        ExistingConfigMap::Absent => ConfigMapAction::Create,
        ExistingConfigMap::NoData => ConfigMapAction::Update,
        ExistingConfigMap::Data { pgbouncer_ini, userlist_hash } => {
            let ini_same = match pgbouncer_ini {
                Some(current) => same_text(current.as_str(), ini),
                None => false,
            };
            let hash_same = match userlist_hash {
                Some(current) => same_text(current.as_str(), hash),
                None => false,
            };
            if ini_same && hash_same {
                ConfigMapAction::Keep
            } else {
                ConfigMapAction::Update
            }
        },
    }
}

/// The identity of a custom resource that owns other objects.
#[derive(Debug, Clone, PartialEq)]
pub struct ParentResource {
    pub api_version: String,
    pub kind: String,
    pub name: String,
    pub namespace: String,
    pub uid: String,
}

/// A reference from an object to its owner.
#[derive(Debug, Clone, PartialEq)]
pub struct OwnerReference {
    pub api_version: String,
    pub kind: String,
    pub name: String,
    pub uid: String,
    pub controller: bool,
    pub block_owner_deletion: bool,
}

/// The metadata of an object written on behalf of a parent.
#[derive(Debug, Clone, PartialEq)]
pub struct ChildMetadata {
    pub name: String,
    pub namespace: String,
    pub owner_references: Vec<OwnerReference>,
}

/// `o` names `parent` as the controller of its object.
pub open spec fn is_controller_ref_to(o: OwnerReference, parent: ParentResource) -> bool {
    &&& o.api_version@ == parent.api_version@
    &&& o.kind@ == parent.kind@
    &&& o.name@ == parent.name@
    &&& o.uid@ == parent.uid@
    &&& o.controller
    &&& o.block_owner_deletion
}

/// The object lives beside `parent` and has exactly one owner reference:
/// `parent`, as controller.
pub open spec fn owned_by(meta: ChildMetadata, parent: ParentResource) -> bool {
    &&& meta.namespace@ == parent.namespace@
    &&& meta.owner_references@.len() == 1
    &&& is_controller_ref_to(meta.owner_references@[0], parent)
}

/// The owner reference that makes `parent` the controller of an object.
pub fn controller_owner_ref(parent: &ParentResource) -> (r: OwnerReference)
    ensures
        is_controller_ref_to(r, *parent),
{
    OwnerReference {
        api_version: parent.api_version.clone(),
        kind: parent.kind.clone(),
        name: parent.name.clone(),
        uid: parent.uid.clone(),
        controller: true,
        block_owner_deletion: true,
    }
}

/// The metadata of the object `name` written on behalf of `parent`.
pub fn child_metadata(parent: &ParentResource, name: String) -> (r: ChildMetadata)
    ensures
        owned_by(r, *parent),
        r.name@ == name@,
{
    let mut owner_references: Vec<OwnerReference> = Vec::new();
    owner_references.push(controller_owner_ref(parent));
    ChildMetadata { name, namespace: parent.namespace.clone(), owner_references }
}

/// The port the pooler's Service exposes when none is declared.
pub const DEFAULT_SERVICE_PORT: i32 = 5432;

/// The objects a PgBouncer owns, as far as this library decides them.
#[derive(Debug, Clone, PartialEq)]
pub struct PgBouncerChildren {
    pub config_map: ChildMetadata,
    pub deployment: ChildMetadata,
    pub service: ChildMetadata,
    /// Labels of the pooler's Pods, which the Service selects.
    pub pod_labels: Vec<(String, String)>,
    pub service_port: i32,
}

/// `c` describes the objects of the PgBouncer `parent` with `spec`.
pub open spec fn is_children_of(c: PgBouncerChildren, parent: ParentResource, spec: PgBouncerSpec) -> bool {
    &&& owned_by(c.config_map, parent)
    &&& owned_by(c.deployment, parent)
    &&& owned_by(c.service, parent)
    &&& c.config_map.name@ == parent.name@ + "-config"@
    &&& c.deployment.name@ == parent.name@ + "-deployment"@
    &&& c.service.name@ == spec.service.name@
    &&& c.pod_labels@.len() == 2
    &&& c.pod_labels@[0].0@ == "app"@ && c.pod_labels@[0].1@ == "pgbouncer"@
    &&& c.pod_labels@[1].0@ == "postgres-topology-operator/pg_bouncer"@ && c.pod_labels@[1].1@
        == parent.uid@
    &&& c.service_port == match spec.service.port {
        Some(p) => p,
        None => DEFAULT_SERVICE_PORT,
    }
}

/// The ConfigMap `<name>-config`, the Deployment `<name>-deployment` and
/// the Service of a PgBouncer, each owned by it; the Pods are labelled
/// `app=pgbouncer` and with the PgBouncer's uid; the Service port is the
/// declared one or 5432.
pub fn pg_bouncer_children(parent: &ParentResource, spec: &PgBouncerSpec) -> (r: PgBouncerChildren)
    ensures
        is_children_of(r, *parent, *spec),
{
    let config_map = child_metadata(parent, joined(parent.name.as_str(), "-config"));
    let deployment = child_metadata(parent, joined(parent.name.as_str(), "-deployment"));
    let service = child_metadata(parent, spec.service.name.clone());
    let mut pod_labels: Vec<(String, String)> = Vec::new();
    pod_labels.push(("app".to_owned(), "pgbouncer".to_owned()));
    pod_labels.push(
        ("postgres-topology-operator/pg_bouncer".to_owned(), parent.uid.clone()),
    );
    let service_port = match spec.service.port {
        Some(p) => p,
        None => DEFAULT_SERVICE_PORT,
    };
    PgBouncerChildren { config_map, deployment, service, pod_labels, service_port }
}

/// `meta` and `user` describe the PgBouncerUser that the role `role` of
/// `parent` registers: it has the role's name and namespace, is owned by the
/// role, and holds the role name, the declared password and the reference.
pub open spec fn is_registration_of(
    parent: ParentResource,
    role: PostgresRoleSpec,
    meta: ChildMetadata,
    user: PgBouncerUserSpec,
) -> bool {
    &&& owned_by(meta, parent)
    &&& meta.name@ == parent.name@
    &&& user.username@ == role.role@
    &&& user.password == role.password
    &&& Some(user.pg_bouncer) == role.register_in_pg_bouncer
}

/// The PgBouncerUser a PostgresRole registers, when it names a PgBouncer:
/// it has the role's name and namespace, is owned by the role, and holds
/// the role name, the declared password and the PgBouncer reference.
pub fn registered_pg_bouncer_user(parent: &ParentResource, role: &PostgresRoleSpec) -> (r: Option<
    (ChildMetadata, PgBouncerUserSpec),
>)
    ensures
        role.register_in_pg_bouncer is None <==> r is None,
        r matches Some((meta, user)) ==> is_registration_of(*parent, *role, meta, user),
{
    match &role.register_in_pg_bouncer {
        Some(reference) => {
            let meta = child_metadata(parent, parent.name.clone());
            let user = PgBouncerUserSpec {
                username: role.role.clone(),
                password: role.password.duplicate(),
                pg_bouncer: reference.duplicate(),
            };
            Some((meta, user))
        },
        None => None,
    }
}

} // verus!
