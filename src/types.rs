//! The custom resources' specifications and the values they hold.

use std::collections::BTreeMap;
use vstd::prelude::*;
use crate::ini_builder::IniValue;
use crate::postgres_password::PostgresPassword;
use tokio_postgres::config::ChannelBinding as PgChannelBinding;
use tokio_postgres::config::SslMode as PgSslMode;

verus! {

#[verifier::external_type_specification]
#[verifier::external_body]
pub struct ExResourceRequirements(k8s_openapi::api::core::v1::ResourceRequirements);

#[verifier::external_type_specification]
pub struct ExPgChannelBinding(PgChannelBinding);

#[verifier::external_type_specification]
pub struct ExPgSslMode(PgSslMode);

/// The TLS mode of a PostgreSQL connection, as libpq names it.
#[derive(Debug, Clone, Copy, PartialEq, Eq, Structural, Default)]
pub enum PostgresSslMode {
    #[default]
    Disable,
    Allow,
    Prefer,
    Require,
    VerifyCa,
    VerifyFull,
}

impl PostgresSslMode {
    pub open spec fn text(&self) -> Seq<char> {
        match self {
            PostgresSslMode::Disable => "disable"@,
            PostgresSslMode::Allow => "allow"@,
            PostgresSslMode::Prefer => "prefer"@,
            PostgresSslMode::Require => "require"@,
            PostgresSslMode::VerifyCa => "verify-ca"@,
            PostgresSslMode::VerifyFull => "verify-full"@,
        }
    }

    /// The mode's name: `disable`, `allow`, `prefer`, `require`,
    /// `verify-ca` or `verify-full`.
    pub fn as_str(&self) -> (r: &'static str)
        ensures
            r@ == self.text(),
    {
        match self {
            PostgresSslMode::Disable => "disable",
            PostgresSslMode::Allow => "allow",
            PostgresSslMode::Prefer => "prefer",
            PostgresSslMode::Require => "require",
            PostgresSslMode::VerifyCa => "verify-ca",
            PostgresSslMode::VerifyFull => "verify-full",
        }
    }

    /// The transport mode of the PostgreSQL client: `allow` and `prefer`
    /// become prefer, `require`, `verify-ca` and `verify-full` become require.
    pub fn to_postgres_ssl_mode(&self) -> (r: PgSslMode)
        ensures
            *self == PostgresSslMode::Disable ==> r == PgSslMode::Disable,
            (*self == PostgresSslMode::Allow || *self == PostgresSslMode::Prefer) ==> r
                == PgSslMode::Prefer,
            (*self == PostgresSslMode::Require || *self == PostgresSslMode::VerifyCa || *self
                == PostgresSslMode::VerifyFull) ==> r == PgSslMode::Require,
    {
        match self {
            PostgresSslMode::Disable => PgSslMode::Disable,
            PostgresSslMode::Allow | PostgresSslMode::Prefer => PgSslMode::Prefer,
            PostgresSslMode::Require
            | PostgresSslMode::VerifyCa
            | PostgresSslMode::VerifyFull => PgSslMode::Require,
        }
    }
}

impl IniValue for PostgresSslMode {
    open spec fn ini_text(&self) -> Seq<char> {
        self.text()
    }

    fn to_ini_text(&self) -> (r: String) {
        self.as_str().to_owned()
    }
}

/// When a pooled server connection goes back to the pool.
#[derive(Debug, Clone, Copy, PartialEq, Eq, Structural, Default)]
pub enum PgBouncerPoolMode {
    #[default]
    Transaction,
    Session,
    Statement,
}

impl PgBouncerPoolMode {
    pub open spec fn text(&self) -> Seq<char> {
        match self {
            PgBouncerPoolMode::Transaction => "transaction"@,
            PgBouncerPoolMode::Session => "session"@,
            PgBouncerPoolMode::Statement => "statement"@,
        }
    }

    /// The mode's name: `transaction`, `session` or `statement`.
    pub fn as_str(&self) -> (r: &'static str)
        ensures
            r@ == self.text(),
    {
        match self {
            PgBouncerPoolMode::Transaction => "transaction",
            PgBouncerPoolMode::Session => "session",
            PgBouncerPoolMode::Statement => "statement",
        }
    }
}

impl IniValue for PgBouncerPoolMode {
    open spec fn ini_text(&self) -> Seq<char> {
        self.text()
    }

    fn to_ini_text(&self) -> (r: String) {
        self.as_str().to_owned()
    }
}

/// How the pooler authenticates its clients.
#[derive(Debug, Clone, Copy, PartialEq, Eq, Structural, Default)]
pub enum PgBouncerAuthType {
    #[default]
    Plain,
    Md5,
    ScramSha256,
}

impl PgBouncerAuthType {
    pub open spec fn text(&self) -> Seq<char> {
        match self {
            PgBouncerAuthType::Plain => "plain"@,
            PgBouncerAuthType::Md5 => "md5"@,
            PgBouncerAuthType::ScramSha256 => "scram-sha-256"@,
        }
    }

    /// The type's name: `plain`, `md5` or `scram-sha-256`.
    pub fn as_str(&self) -> (r: &'static str)
        ensures
            r@ == self.text(),
    {
        match self {
            PgBouncerAuthType::Plain => "plain",
            PgBouncerAuthType::Md5 => "md5",
            PgBouncerAuthType::ScramSha256 => "scram-sha-256",
        }
    }
}

impl IniValue for PgBouncerAuthType {
    open spec fn ini_text(&self) -> Seq<char> {
        self.text()
    }

    fn to_ini_text(&self) -> (r: String) {
        self.as_str().to_owned()
    }
}

/// The namespace a reference points into: its own, or else the referrer's.
pub open spec fn effective_namespace(namespace: Option<String>, referrer: Seq<char>) -> Seq<char> {
    match namespace {
        Some(ns) => ns@,
        None => referrer,
    }
}

/// A reference to a PgBouncer by name, in the referrer's namespace unless
/// one is given.
#[derive(Debug, Clone, PartialEq, Default)]
pub struct PgBouncerReference {
    pub name: String,
    pub namespace: Option<String>,
}

impl PgBouncerReference {
    /// A copy of the reference.
    pub fn duplicate(&self) -> (r: PgBouncerReference)
        ensures
            r == *self,
    {
        PgBouncerReference { name: self.name.clone(), namespace: duplicate_text(&self.namespace) }
    }

    /// The namespace of the referenced PgBouncer, for a referrer in
    /// `current_namespace`.
    pub fn target_namespace(&self, current_namespace: &str) -> (r: String)
        ensures
            r@ == effective_namespace(self.namespace, current_namespace@),
    {
        match &self.namespace {
            Some(ns) => ns.clone(),
            None => current_namespace.to_owned(),
        }
    }
}

/// Whether a resource in `own_namespace` that holds `reference` belongs to
/// the PgBouncer `bouncer_name` in `bouncer_namespace`.
pub open spec fn belongs_to(
    reference: Option<PgBouncerReference>,
    own_namespace: Seq<char>,
    bouncer_name: Seq<char>,
    bouncer_namespace: Seq<char>,
) -> bool {
    match reference {
        Some(r) => r.name@ == bouncer_name && effective_namespace(r.namespace, own_namespace)
            == bouncer_namespace,
        None => false,
    }
}

/// Relies on `String`'s `==` (`str::eq`): equal exactly when the texts are.
#[verifier::external_body]
pub(crate) fn same_text(a: &str, b: &str) -> (r: bool)
    ensures
        r == (a@ == b@),
{
    a == b
}

/// Whether a resource in `own_namespace` holding `reference` belongs to the
/// PgBouncer `bouncer_name` in `bouncer_namespace`: the names match, and so
/// do the namespaces, the reference's own or else the resource's.
pub fn is_for(
    reference: Option<&PgBouncerReference>,
    own_namespace: &str,
    bouncer_name: &str,
    bouncer_namespace: &str,
) -> (r: bool)
    ensures
        r == belongs_to(
            match reference {
                Some(x) => Some(*x),
                None => None,
            },
            own_namespace@,
            bouncer_name@,
            bouncer_namespace@,
        ),
{
    match reference {
        Some(reference) => {
            let namespace = reference.target_namespace(own_namespace);
            same_text(reference.name.as_str(), bouncer_name) && same_text(
                namespace.as_str(),
                bouncer_namespace,
            )
        },
        None => false,
    }
}

/// The Service in front of the pooler.
#[derive(Debug, Clone, PartialEq, Default)]
pub struct PgBouncerServiceSettings {
    pub name: String,
    pub annotations: Option<BTreeMap<String, String>>,
    pub port: Option<i32>,
}

/// Scheduling options of the pooler's Pod.
#[derive(Debug, Clone, PartialEq, Default)]
pub struct PgBouncerPodOptions {
    pub node_selector: Option<BTreeMap<String, String>>,
    pub resources: Option<k8s_openapi::api::core::v1::ResourceRequirements>,
}

/// The `[pgbouncer]` settings of the pooler.
#[derive(Debug, Clone, PartialEq, Default)]
pub struct PgBouncerSettings {
    pub pool_mode: PgBouncerPoolMode,
    pub auth_type: PgBouncerAuthType,
    pub admin_users: Option<Vec<String>>,
    pub ignore_startup_parameters: Option<Vec<String>>,
    pub server_tls_ssl_mode: PostgresSslMode,
    pub client_tls_ssl_mode: PostgresSslMode,
    pub max_client_conn: u32,
    pub max_db_connections: u32,
}

/// A managed pooler instance.
#[derive(Debug, Clone, PartialEq)]
pub struct PgBouncerSpec {
    pub pg_bouncer: PgBouncerSettings,
    pub pod_options: Option<PgBouncerPodOptions>,
    pub service: PgBouncerServiceSettings,
}

/// A user name with its password.
#[derive(Debug, Clone, PartialEq)]
pub struct PgBouncerAuthUser {
    pub username: String,
    pub password: PostgresPassword,
}

#[derive(Debug, Clone, PartialEq, Default)]
pub struct PgBouncerStatus {
    pub last_user_config_hash: Option<String>,
}

/// A route of the pooler: one entry of its `[databases]` section.
#[derive(Debug, Clone, PartialEq)]
pub struct PgBouncerDatabaseSpec {
    pub exposed_database_name: String,
    pub internal_database_name: Option<String>,
    pub host: String,
    pub port: Option<u16>,
    pub user: Option<String>,
    pub pg_bouncer: PgBouncerReference,
}

/// A copy of an optional text.
pub fn duplicate_text(s: &Option<String>) -> (r: Option<String>)
    ensures
        r == *s,
{
    match s {
        Some(t) => Some(t.clone()),
        None => None,
    }
}

impl PgBouncerDatabaseSpec {
    /// A copy of the route.
    pub fn duplicate(&self) -> (r: PgBouncerDatabaseSpec)
        ensures
            r == *self,
    {
        PgBouncerDatabaseSpec {
            exposed_database_name: self.exposed_database_name.clone(),
            internal_database_name: duplicate_text(&self.internal_database_name),
            host: self.host.clone(),
            port: self.port,
            user: duplicate_text(&self.user),
            pg_bouncer: self.pg_bouncer.duplicate(),
        }
    }
}

#[derive(Debug, Clone, PartialEq, Default)]
pub struct PgBouncerDatabaseStatus {
    pub ready: bool,
}

/// A credential of the pooler: one line of its `userlist.txt`.
#[derive(Debug, Clone, PartialEq)]
pub struct PgBouncerUserSpec {
    pub username: String,
    pub password: PostgresPassword,
    pub pg_bouncer: PgBouncerReference,
}

impl PgBouncerUserSpec {
    /// A copy of the user.
    pub fn duplicate(&self) -> (r: PgBouncerUserSpec)
        ensures
            r == *self,
    {
        PgBouncerUserSpec {
            username: self.username.clone(),
            password: self.password.duplicate(),
            pg_bouncer: self.pg_bouncer.duplicate(),
        }
    }
}

#[derive(Debug, Clone, PartialEq, Default)]
pub struct PgBouncerUserStatus {
    pub ready: bool,
}

/// Channel binding configuration.
#[derive(Debug, Clone, Copy, PartialEq, Eq, Structural)]
pub enum ChannelBinding {
    /// Do not use channel binding.
    Disable,
    /// Attempt to use channel binding but allow sessions without.
    Prefer,
    /// Require the use of channel binding.
    Require,
}

impl ChannelBinding {
    /// The client's setting. `Require` is handed on as prefer, as it has
    /// always been.
    pub fn to_postgres_channel_binding(self) -> (r: PgChannelBinding)
        ensures
            self == ChannelBinding::Disable ==> r == PgChannelBinding::Disable,
            self != ChannelBinding::Disable ==> r == PgChannelBinding::Prefer,
    {
        match self {
            ChannelBinding::Disable => PgChannelBinding::Disable,
            ChannelBinding::Prefer => PgChannelBinding::Prefer,
            ChannelBinding::Require => PgChannelBinding::Prefer,
        }
    }
}

/// Endpoint and credentials of a PostgreSQL server.
#[derive(Debug, Clone, PartialEq)]
pub struct PostgresAdminConnectionSpec {
    pub host: String,
    pub port: u16,
    pub username: String,
    pub password: PostgresPassword,
    pub database: String,
    pub ssl_mode: PostgresSslMode,
    pub channel_binding: Option<ChannelBinding>,
}

impl PostgresAdminConnectionSpec {
    /// The channel binding to connect with: the declared one, or disable.
    pub fn effective_channel_binding(&self) -> (r: ChannelBinding)
        ensures
            r == match self.channel_binding {
                Some(c) => c,
                None => ChannelBinding::Disable,
            },
    {
        match self.channel_binding {
            Some(c) => c,
            None => ChannelBinding::Disable,
        }
    }
}

/// A reference to a PostgresAdminConnection by name, in the referrer's
/// namespace unless one is given.
#[derive(Debug, Clone, PartialEq)]
pub struct PostgresAdminConnectionReference {
    pub name: String,
    pub namespace: Option<String>,
}

impl PostgresAdminConnectionReference {
    /// The namespace of the referenced connection, for a referrer in
    /// `current_namespace`.
    pub fn target_namespace(&self, current_namespace: &str) -> (r: String)
        ensures
            r@ == effective_namespace(self.namespace, current_namespace@),
    {
        match &self.namespace {
            Some(ns) => ns.clone(),
            None => current_namespace.to_owned(),
        }
    }
}

/// A resource that names the PostgreSQL server it is applied to.
pub trait HasPostgresAdminConnection {
    /// The reference the resource holds.
    spec fn connection_reference(&self) -> PostgresAdminConnectionReference;

    fn get_connection(&self) -> (r: &PostgresAdminConnectionReference)
        ensures
            *r == self.connection_reference(),
    ;
}

/// A managed PostgreSQL role.
#[derive(Debug, Clone, PartialEq)]
pub struct PostgresRoleSpec {
    pub role: String,
    pub password: PostgresPassword,
    pub register_in_pg_bouncer: Option<PgBouncerReference>,
    pub grant_role_to_admin_user: Option<bool>,
    pub connection: PostgresAdminConnectionReference,
}

impl HasPostgresAdminConnection for PostgresRoleSpec {
    open spec fn connection_reference(&self) -> PostgresAdminConnectionReference {
        self.connection
    }

    fn get_connection(&self) -> &PostgresAdminConnectionReference {
        &self.connection
    }
}

#[derive(Debug, Clone, PartialEq, Default)]
pub struct PostgresRoleStatus {
    pub encoded_password: Option<StatusEncodedPassword>,
}

/// A verifier together with the password it was computed from.
#[derive(Debug, Clone, PartialEq)]
pub struct StatusEncodedPassword {
    pub original: PostgresPassword,
    pub encoded: String,
}

/// A reference to a PostgresRole by name, in the referrer's namespace
/// unless one is given.
#[derive(Debug, Clone, PartialEq, Default)]
pub struct PostgresRoleReference {
    pub name: String,
    pub namespace: Option<String>,
}

/// A managed PostgreSQL schema.
#[derive(Debug, Clone, PartialEq)]
pub struct PostgresSchemaSpec {
    pub schema: String,
    pub schema_owner: Option<PostgresSchemaOwner>,
    pub connection: PostgresAdminConnectionReference,
}

impl HasPostgresAdminConnection for PostgresSchemaSpec {
    open spec fn connection_reference(&self) -> PostgresAdminConnectionReference {
        self.connection
    }

    fn get_connection(&self) -> &PostgresAdminConnectionReference {
        &self.connection
    }
}

#[derive(Debug, Clone, PartialEq, Default)]
pub struct PostgresSchemaStatus {}

/// The owner of a schema: a role managed here, or a role named directly.
#[derive(Debug, Clone, PartialEq)]
pub enum PostgresSchemaOwner {
    ManagedRole(PostgresRoleReference),
    Name(String),
}

} // verus!
