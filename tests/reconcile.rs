use postgres_topology::postgres_password::PostgresPassword;
use tokio_postgres::config::{ChannelBinding as Cb, SslMode};
use postgres_topology::reconcile::{
    config_map_action, error_policy, field_manager, finalizer_name, finalizer_removal_succeeded,
    needs_finalizer, owner_from_role, pg_bouncer_children, registered_pg_bouncer_user,
    role_apply_statements, role_deletion_statements, schema_deletion_statement,
    schema_owner_lookup, schema_statement, ApiFailure, ConfigMapAction, ExistingConfigMap,
    OwnerLookup, ParentResource, ReconcileAction,
};
use postgres_topology::types::{
    is_for, ChannelBinding, HasPostgresAdminConnection, PostgresAdminConnectionSpec, PgBouncerReference, PgBouncerServiceSettings, PgBouncerSettings,
    PgBouncerSpec, PostgresAdminConnectionReference, PostgresRoleReference, PostgresRoleSpec,
    PostgresSchemaOwner, PostgresSslMode,
};

fn parent() -> ParentResource {
    ParentResource {
        api_version: "postgres.digizuite.com/v1alpha1".to_string(),
        kind: "PgBouncer".to_string(),
        name: "pooler".to_string(),
        namespace: "db".to_string(),
        uid: "uid-1".to_string(),
    }
}

fn role_spec(register: Option<PgBouncerReference>) -> PostgresRoleSpec {
    PostgresRoleSpec {
        role: "app_user".to_string(),
        password: PostgresPassword::Md5("pw".to_string()),
        register_in_pg_bouncer: register,
        grant_role_to_admin_user: None,
        connection: PostgresAdminConnectionReference { name: "admin".to_string(), namespace: None },
    }
}

#[test]
fn schema_owner_mismatch_alters_owner() {
    let r = schema_statement("s1", &Some("old".to_string()), &Some("new".to_string()));
    assert_eq!(r, Some("ALTER SCHEMA s1 OWNER TO new".to_string()));
}

#[test]
fn schema_table_of_cases() {
    assert_eq!(schema_statement("s", &None, &None), Some("CREATE SCHEMA IF NOT EXISTS s".to_string()));
    assert_eq!(
        schema_statement("s", &None, &Some("o".to_string())),
        Some("CREATE SCHEMA IF NOT EXISTS s AUTHORIZATION o".to_string())
    );
    assert_eq!(schema_statement("s", &Some("x".to_string()), &None), None);
    assert_eq!(schema_statement("s", &Some("o".to_string()), &Some("o".to_string())), None);
    assert_eq!(schema_deletion_statement("s"), "DROP SCHEMA IF EXISTS s CASCADE");
}

#[test]
fn role_statements() {
    assert_eq!(
        role_deletion_statements("r", "postgres", true),
        vec!["REVOKE ALL PRIVILEGES ON DATABASE postgres FROM r CASCADE".to_string(), "DROP ROLE r".to_string()]
    );
    assert!(role_deletion_statements("r", "postgres", false).is_empty());
    assert_eq!(
        role_apply_statements("r", "pw", "admin", "postgres", true, Some(true)),
        vec![
            "ALTER USER r WITH PASSWORD 'pw'".to_string(),
            "GRANT r TO admin".to_string(),
            "GRANT CONNECT ON DATABASE postgres TO r".to_string(),
        ]
    );
    assert_eq!(
        role_apply_statements("r", "pw", "admin", "postgres", false, Some(false)),
        vec!["CREATE USER r WITH PASSWORD 'pw'".to_string(), "GRANT CONNECT ON DATABASE postgres TO r".to_string()]
    );
}

#[test]
fn finalizer_decisions() {
    assert_eq!(finalizer_name(), "postgres.digizuite.com/finalizer");
    assert_eq!(field_manager(), "postgres-topology-operator");
    assert!(needs_finalizer(&None));
    assert!(needs_finalizer(&Some(Vec::new())));
    assert!(!needs_finalizer(&Some(vec!["postgres.digizuite.com/finalizer".to_string()])));
}

#[test]
fn finalizer_removal_tolerates_not_found() {
    assert!(finalizer_removal_succeeded(&Some(ApiFailure::Status(404))));
    assert!(finalizer_removal_succeeded(&None));
    assert!(!finalizer_removal_succeeded(&Some(ApiFailure::Status(500))));
    assert!(!finalizer_removal_succeeded(&Some(ApiFailure::Transport)));
}

#[test]
fn requeue_policies() {
    assert_eq!(error_policy(), ReconcileAction::RequeueAfterSecs(15));
    assert_eq!(owner_from_role(None), Err(ReconcileAction::RequeueAfterSecs(30)));
    let spec = role_spec(None);
    assert_eq!(owner_from_role(Some(&spec)), Ok("app_user".to_string()));
}

#[test]
fn schema_owner_lookup_resolves_namespace() {
    assert_eq!(schema_owner_lookup(&None, "ns"), OwnerLookup::NoOwner);
    assert_eq!(
        schema_owner_lookup(&Some(PostgresSchemaOwner::Name("o".to_string())), "ns"),
        OwnerLookup::Named("o".to_string())
    );
    let managed = PostgresSchemaOwner::ManagedRole(PostgresRoleReference { name: "r".to_string(), namespace: None });
    assert_eq!(
        schema_owner_lookup(&Some(managed), "ns"),
        OwnerLookup::Role { name: "r".to_string(), namespace: "ns".to_string() }
    );
    let other = PostgresSchemaOwner::ManagedRole(PostgresRoleReference { name: "r".to_string(), namespace: Some("x".to_string()) });
    assert_eq!(
        schema_owner_lookup(&Some(other), "ns"),
        OwnerLookup::Role { name: "r".to_string(), namespace: "x".to_string() }
    );
}

#[test]
fn config_map_decisions() {
    assert_eq!(config_map_action(&ExistingConfigMap::Absent, "ini", "h"), ConfigMapAction::Create);
    assert_eq!(config_map_action(&ExistingConfigMap::NoData, "ini", "h"), ConfigMapAction::Update);
    let same = ExistingConfigMap::Data { pgbouncer_ini: Some("ini".to_string()), userlist_hash: Some("h".to_string()) };
    assert_eq!(config_map_action(&same, "ini", "h"), ConfigMapAction::Keep);
    let other_hash = ExistingConfigMap::Data { pgbouncer_ini: Some("ini".to_string()), userlist_hash: Some("g".to_string()) };
    assert_eq!(config_map_action(&other_hash, "ini", "h"), ConfigMapAction::Update);
    let other_ini = ExistingConfigMap::Data { pgbouncer_ini: Some("x".to_string()), userlist_hash: Some("h".to_string()) };
    assert_eq!(config_map_action(&other_ini, "ini", "h"), ConfigMapAction::Update);
    let missing = ExistingConfigMap::Data { pgbouncer_ini: None, userlist_hash: Some("h".to_string()) };
    assert_eq!(config_map_action(&missing, "ini", "h"), ConfigMapAction::Update);
}

#[test]
fn children_have_one_controller_owner() {
    let spec = PgBouncerSpec {
        pg_bouncer: PgBouncerSettings::default(),
        pod_options: None,
        service: PgBouncerServiceSettings { name: "svc".to_string(), annotations: None, port: None },
    };
    let c = pg_bouncer_children(&parent(), &spec);
    for meta in [&c.config_map, &c.deployment, &c.service] {
        assert_eq!(meta.namespace, "db");
        assert_eq!(meta.owner_references.len(), 1);
        let o = &meta.owner_references[0];
        assert!(o.controller);
        assert_eq!(o.name, "pooler");
        assert_eq!(o.uid, "uid-1");
        assert_eq!(o.kind, "PgBouncer");
    }
    assert_eq!(c.config_map.name, "pooler-config");
    assert_eq!(c.deployment.name, "pooler-deployment");
    assert_eq!(c.service.name, "svc");
    assert_eq!(c.service_port, 5432);
    assert_eq!(
        c.pod_labels,
        vec![
            ("app".to_string(), "pgbouncer".to_string()),
            ("postgres-topology-operator/pg_bouncer".to_string(), "uid-1".to_string()),
        ]
    );
    let with_port = PgBouncerSpec {
        service: PgBouncerServiceSettings { name: "svc".to_string(), annotations: None, port: Some(6432) },
        ..spec
    };
    assert_eq!(pg_bouncer_children(&parent(), &with_port).service_port, 6432);
}

#[test]
fn role_registers_pooler_user() {
    assert!(registered_pg_bouncer_user(&parent(), &role_spec(None)).is_none());
    let reference = PgBouncerReference { name: "pooler".to_string(), namespace: Some("db".to_string()) };
    let (meta, user) = registered_pg_bouncer_user(&parent(), &role_spec(Some(reference.clone()))).unwrap();
    assert_eq!(meta.name, "pooler");
    assert_eq!(meta.owner_references.len(), 1);
    assert!(meta.owner_references[0].controller);
    assert_eq!(user.username, "app_user");
    assert_eq!(user.password.get_raw_text(), "pw");
    assert_eq!(user.pg_bouncer, reference);
}

#[test]
fn belongs_to_pooler() {
    let local = PgBouncerReference { name: "p".to_string(), namespace: None };
    assert!(is_for(Some(&local), "ns", "p", "ns"));
    assert!(!is_for(Some(&local), "other", "p", "ns"));
    assert!(!is_for(Some(&local), "ns", "q", "ns"));
    let remote = PgBouncerReference { name: "p".to_string(), namespace: Some("ns".to_string()) };
    assert!(is_for(Some(&remote), "other", "p", "ns"));
    assert!(!is_for(None, "ns", "p", "ns"));
    assert_eq!(local.target_namespace("here"), "here");
    assert_eq!(remote.target_namespace("here"), "ns");
}

#[test]
fn transport_modes() {
    assert!(matches!(PostgresSslMode::Disable.to_postgres_ssl_mode(), SslMode::Disable));
    assert!(matches!(PostgresSslMode::Allow.to_postgres_ssl_mode(), SslMode::Prefer));
    assert!(matches!(PostgresSslMode::Prefer.to_postgres_ssl_mode(), SslMode::Prefer));
    assert!(matches!(PostgresSslMode::Require.to_postgres_ssl_mode(), SslMode::Require));
    assert!(matches!(PostgresSslMode::VerifyCa.to_postgres_ssl_mode(), SslMode::Require));
    assert!(matches!(PostgresSslMode::VerifyFull.to_postgres_ssl_mode(), SslMode::Require));
    assert!(matches!(ChannelBinding::Disable.to_postgres_channel_binding(), Cb::Disable));
    assert!(matches!(ChannelBinding::Prefer.to_postgres_channel_binding(), Cb::Prefer));
    assert!(matches!(ChannelBinding::Require.to_postgres_channel_binding(), Cb::Prefer));
    assert_eq!(PostgresSslMode::VerifyFull.as_str(), "verify-full");
}

#[test]
fn admin_connection_defaults() {
    let mut spec = PostgresAdminConnectionSpec {
        host: "h".to_string(),
        port: 5432,
        username: "admin".to_string(),
        password: PostgresPassword::Plain("pw".to_string()),
        database: "postgres".to_string(),
        ssl_mode: PostgresSslMode::Prefer,
        channel_binding: None,
    };
    assert_eq!(spec.effective_channel_binding(), ChannelBinding::Disable);
    spec.channel_binding = Some(ChannelBinding::Require);
    assert_eq!(spec.effective_channel_binding(), ChannelBinding::Require);
    let role = role_spec(None);
    assert_eq!(role.get_connection().name, "admin");
    assert_eq!(role.get_connection().target_namespace("ns"), "ns");
}
