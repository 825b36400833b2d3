use postgres_topology::pooler_reconciler::{pooler_step, select_databases, PoolerCommand, PoolerEvent, PoolerState};
use postgres_topology::postgres_password::PostgresPassword;
use postgres_topology::reconcile::{ExistingConfigMap, ParentResource, ReconcileAction};
use postgres_topology::role_reconciler::{role_step, RoleCommand, RoleEvent, RoleState};
use postgres_topology::schema_reconciler::{schema_step, SchemaCommand, SchemaEvent, SchemaState};
use postgres_topology::types::{
    PgBouncerDatabaseSpec, PgBouncerReference, PgBouncerServiceSettings, PgBouncerSettings, PgBouncerSpec,
    PgBouncerUserSpec, PostgresAdminConnectionReference, PostgresRoleReference, PostgresRoleSpec,
    PostgresSchemaOwner, PostgresSchemaSpec,
};

fn parent(kind: &str, name: &str) -> ParentResource {
    ParentResource {
        api_version: "postgres.digizuite.com/v1alpha1".to_string(),
        kind: kind.to_string(),
        name: name.to_string(),
        namespace: "db".to_string(),
        uid: "uid-7".to_string(),
    }
}

fn connection() -> PostgresAdminConnectionReference {
    PostgresAdminConnectionReference { name: "admin".to_string(), namespace: None }
}

fn role(register: bool) -> PostgresRoleSpec {
    PostgresRoleSpec {
        role: "app".to_string(),
        password: PostgresPassword::Plain("pw".to_string()),
        register_in_pg_bouncer: if register {
            Some(PgBouncerReference { name: "pooler".to_string(), namespace: None })
        } else {
            None
        },
        grant_role_to_admin_user: Some(true),
        connection: connection(),
    }
}

fn connected() -> RoleEvent {
    RoleEvent::Connected { admin_username: "admin".to_string(), database: "postgres".to_string() }
}

#[test]
fn role_deletion_flow() {
    let spec = role(false);
    let p = parent("PostgresRole", "app-role");
    let (s, c) = role_step(&RoleState::Start, &RoleEvent::Begin { deleting: true }, &spec, &p);
    assert_eq!(c, RoleCommand::Connect);
    let (s, c) = role_step(&s, &connected(), &spec, &p);
    assert_eq!(c, RoleCommand::CheckRole);
    let (s, c) = role_step(&s, &RoleEvent::RoleChecked { exists: true }, &spec, &p);
    assert_eq!(
        c,
        RoleCommand::Execute(vec![
            "REVOKE ALL PRIVILEGES ON DATABASE postgres FROM app CASCADE".to_string(),
            "DROP ROLE app".to_string(),
        ])
    );
    let (s, c) = role_step(&s, &RoleEvent::Executed, &spec, &p);
    assert_eq!(c, RoleCommand::RemoveFinalizer);
    let (s, c) = role_step(&s, &RoleEvent::FinalizerRemoved, &spec, &p);
    assert_eq!(c, RoleCommand::Finish(ReconcileAction::AwaitChange));
    assert_eq!(s, RoleState::Done);
}

#[test]
fn role_apply_flow_registers_user() {
    let spec = role(true);
    let p = parent("PostgresRole", "app-role");
    let (s, c) = role_step(&RoleState::Start, &RoleEvent::Begin { deleting: false }, &spec, &p);
    assert_eq!(c, RoleCommand::EnsureFinalizer);
    let (s, c) = role_step(&s, &RoleEvent::FinalizerEnsured, &spec, &p);
    assert_eq!(c, RoleCommand::Connect);
    let (s, c) = role_step(&s, &connected(), &spec, &p);
    assert_eq!(c, RoleCommand::CheckRole);
    let (s, c) = role_step(&s, &RoleEvent::RoleChecked { exists: false }, &spec, &p);
    assert_eq!(
        c,
        RoleCommand::Execute(vec![
            "CREATE USER app WITH PASSWORD 'pw'".to_string(),
            "GRANT app TO admin".to_string(),
            "GRANT CONNECT ON DATABASE postgres TO app".to_string(),
        ])
    );
    let (s, c) = role_step(&s, &RoleEvent::Executed, &spec, &p);
    match c {
        RoleCommand::RegisterUser(meta, user) => {
            assert_eq!(meta.name, "app-role");
            assert_eq!(meta.namespace, "db");
            assert_eq!(meta.owner_references.len(), 1);
            assert_eq!(meta.owner_references[0].kind, "PostgresRole");
            assert!(meta.owner_references[0].controller);
            assert_eq!(user.username, "app");
        }
        other => panic!("unexpected command {:?}", other),
    }
    let (_, c) = role_step(&s, &RoleEvent::UserRegistered, &spec, &p);
    assert_eq!(c, RoleCommand::Finish(ReconcileAction::AwaitChange));
}

#[test]
fn role_out_of_order_event_retries() {
    let spec = role(false);
    let p = parent("PostgresRole", "r");
    let (s, c) = role_step(&RoleState::Start, &RoleEvent::Executed, &spec, &p);
    assert_eq!(s, RoleState::Done);
    assert_eq!(c, RoleCommand::Finish(ReconcileAction::RequeueAfterSecs(15)));
}

fn schema(owner: Option<PostgresSchemaOwner>) -> PostgresSchemaSpec {
    PostgresSchemaSpec { schema: "s1".to_string(), schema_owner: owner, connection: connection() }
}

#[test]
fn schema_owner_mismatch_flow() {
    let spec = schema(Some(PostgresSchemaOwner::Name("new".to_string())));
    let (s, c) = schema_step(&SchemaState::Start, &SchemaEvent::Begin { deleting: false }, &spec, "db");
    assert_eq!(c, SchemaCommand::EnsureFinalizer);
    let (s, c) = schema_step(&s, &SchemaEvent::FinalizerEnsured, &spec, "db");
    assert_eq!(c, SchemaCommand::Connect);
    let (s, c) = schema_step(&s, &SchemaEvent::Connected, &spec, "db");
    assert_eq!(c, SchemaCommand::CheckSchema);
    let (s, c) = schema_step(&s, &SchemaEvent::SchemaChecked { current_owner: Some("old".to_string()) }, &spec, "db");
    assert_eq!(c, SchemaCommand::Execute(vec!["ALTER SCHEMA s1 OWNER TO new".to_string()]));
    let (_, c) = schema_step(&s, &SchemaEvent::Executed, &spec, "db");
    assert_eq!(c, SchemaCommand::Finish(ReconcileAction::AwaitChange));
}

#[test]
fn schema_missing_managed_role_requeues() {
    let owner = PostgresSchemaOwner::ManagedRole(PostgresRoleReference { name: "r".to_string(), namespace: None });
    let spec = schema(Some(owner));
    let (s, _) = schema_step(&SchemaState::Start, &SchemaEvent::Begin { deleting: false }, &spec, "db");
    let (s, c) = schema_step(&s, &SchemaEvent::FinalizerEnsured, &spec, "db");
    assert_eq!(c, SchemaCommand::FetchOwnerRole { name: "r".to_string(), namespace: "db".to_string() });
    let (_, c) = schema_step(&s, &SchemaEvent::OwnerRoleFetched(None), &spec, "db");
    assert_eq!(c, SchemaCommand::Finish(ReconcileAction::RequeueAfterSecs(30)));
    let (s, c) = schema_step(&s, &SchemaEvent::OwnerRoleFetched(Some(role(false))), &spec, "db");
    assert_eq!(c, SchemaCommand::Connect);
    let (s, _) = schema_step(&s, &SchemaEvent::Connected, &spec, "db");
    let (_, c) = schema_step(&s, &SchemaEvent::SchemaChecked { current_owner: None }, &spec, "db");
    assert_eq!(c, SchemaCommand::Execute(vec!["CREATE SCHEMA IF NOT EXISTS s1 AUTHORIZATION app".to_string()]));
}

#[test]
fn schema_deletion_flow() {
    let spec = schema(None);
    let (s, c) = schema_step(&SchemaState::Start, &SchemaEvent::Begin { deleting: true }, &spec, "db");
    assert_eq!(c, SchemaCommand::Connect);
    let (s, c) = schema_step(&s, &SchemaEvent::Connected, &spec, "db");
    assert_eq!(c, SchemaCommand::Execute(vec!["DROP SCHEMA IF EXISTS s1 CASCADE".to_string()]));
    let (s, c) = schema_step(&s, &SchemaEvent::Executed, &spec, "db");
    assert_eq!(c, SchemaCommand::RemoveFinalizer);
    let (_, c) = schema_step(&s, &SchemaEvent::FinalizerRemoved, &spec, "db");
    assert_eq!(c, SchemaCommand::Finish(ReconcileAction::AwaitChange));
}

#[test]
fn schema_existing_without_owner_is_left_alone() {
    let spec = schema(None);
    let (s, _) = schema_step(&SchemaState::Start, &SchemaEvent::Begin { deleting: false }, &spec, "db");
    let (s, _) = schema_step(&s, &SchemaEvent::FinalizerEnsured, &spec, "db");
    let (s, _) = schema_step(&s, &SchemaEvent::Connected, &spec, "db");
    let (s, c) = schema_step(&s, &SchemaEvent::SchemaChecked { current_owner: Some("x".to_string()) }, &spec, "db");
    assert_eq!(s, SchemaState::Done);
    assert_eq!(c, SchemaCommand::Finish(ReconcileAction::AwaitChange));
}

fn route(name: &str, pooler: &str, namespace: Option<&str>) -> PgBouncerDatabaseSpec {
    PgBouncerDatabaseSpec {
        exposed_database_name: name.to_string(),
        internal_database_name: None,
        host: "h".to_string(),
        port: None,
        user: None,
        pg_bouncer: PgBouncerReference { name: pooler.to_string(), namespace: namespace.map(|n| n.to_string()) },
    }
}

#[test]
fn routes_are_selected_by_reference() {
    let listed = vec![
        ("db".to_string(), route("a", "pooler", None)),
        ("other".to_string(), route("b", "pooler", None)),
        ("other".to_string(), route("c", "pooler", Some("db"))),
        ("db".to_string(), route("d", "elsewhere", None)),
    ];
    let kept = select_databases("pooler", "db", &listed);
    let names: Vec<&str> = kept.iter().map(|d| d.exposed_database_name.as_str()).collect();
    assert_eq!(names, vec!["a", "c"]);
}

fn pooler_spec() -> PgBouncerSpec {
    PgBouncerSpec {
        pg_bouncer: PgBouncerSettings::default(),
        pod_options: None,
        service: PgBouncerServiceSettings { name: "pooler-svc".to_string(), annotations: None, port: Some(6432) },
    }
}

#[test]
fn pooler_flow_keeps_unchanged_config_map() {
    let p = parent("PgBouncer", "pooler");
    let spec = pooler_spec();
    let (s, c) = pooler_step(PoolerState::Start, PoolerEvent::Begin { deleting: false }, &p, &spec);
    assert_eq!(c, PoolerCommand::ListResources);
    let users = vec![(
        "db".to_string(),
        PgBouncerUserSpec {
            username: "u".to_string(),
            password: PostgresPassword::Plain("p".to_string()),
            pg_bouncer: PgBouncerReference { name: "pooler".to_string(), namespace: None },
        },
    )];
    let databases = vec![("db".to_string(), route("app", "pooler", None)), ("db".to_string(), route("x", "other", None))];
    let (s, c) = pooler_step(s, PoolerEvent::Listed { databases, users }, &p, &spec);
    assert_eq!(c, PoolerCommand::FetchConfigMap { name: "pooler-config".to_string() });
    let config = s.config().unwrap().clone();
    assert!(config.pgbouncer_ini.ends_with("[databases]\napp = host=h \n"));
    assert_eq!(config.userlist_txt, "\"u\" \"p\"\n");
    assert_eq!(config.children.service_port, 6432);
    let same = ExistingConfigMap::Data {
        pgbouncer_ini: Some(config.pgbouncer_ini.clone()),
        userlist_hash: Some(config.userlist_hash.clone()),
    };
    let (s, c) = pooler_step(s, PoolerEvent::ConfigMapFetched(same), &p, &spec);
    assert_eq!(c, PoolerCommand::ApplyDeployment);
    let (s, c) = pooler_step(s, PoolerEvent::DeploymentApplied, &p, &spec);
    assert_eq!(c, PoolerCommand::ApplyService);
    assert_eq!(s.config().unwrap().children.service.name, "pooler-svc");
    let (_, c) = pooler_step(s, PoolerEvent::ServiceApplied, &p, &spec);
    assert_eq!(c, PoolerCommand::Finish(ReconcileAction::AwaitChange));
}

#[test]
fn pooler_flow_writes_missing_config_map() {
    let p = parent("PgBouncer", "pooler");
    let spec = pooler_spec();
    let (s, _) = pooler_step(PoolerState::Start, PoolerEvent::Begin { deleting: false }, &p, &spec);
    let (s, _) = pooler_step(s, PoolerEvent::Listed { databases: Vec::new(), users: Vec::new() }, &p, &spec);
    let (s, c) = pooler_step(s, PoolerEvent::ConfigMapFetched(ExistingConfigMap::Absent), &p, &spec);
    assert_eq!(c, PoolerCommand::ApplyConfigMap);
    assert_eq!(s.config().unwrap().userlist_txt, "");
    let (_, c) = pooler_step(s, PoolerEvent::ConfigMapApplied, &p, &spec);
    assert_eq!(c, PoolerCommand::ApplyDeployment);
}

#[test]
fn pooler_being_deleted_is_left_alone() {
    let p = parent("PgBouncer", "pooler");
    let (s, c) = pooler_step(PoolerState::Start, PoolerEvent::Begin { deleting: true }, &p, &pooler_spec());
    assert_eq!(s, PoolerState::Done);
    assert_eq!(c, PoolerCommand::Finish(ReconcileAction::AwaitChange));
}
