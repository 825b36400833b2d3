//! The pooler's configuration: `pgbouncer.ini`, `userlist.txt` and the
//! fingerprint of the user list.

use vstd::prelude::*;
use vstd::string::StringExecFns;
use crate::ini_builder::{
    comma_joined, decimal, new, push_decimal, section_line, setting_line, signed_decimal,
    IniBuilder, IniValue,
};
use crate::digests::{sha256_digest, sha256_of};
use crate::encoding::{encode_lower_hex, lower_hex};
use crate::postgres_password::{push_all, SCRAM_DEFAULT_SALT_LEN};
use crate::types::{PgBouncerDatabaseSpec, PgBouncerSettings, PgBouncerSpec, PgBouncerUserSpec};
use vstd::utf8::encode_utf8;

verus! {

/// The port the pooler listens on inside its Pod.
pub const PG_BOUNCER_PORT: i32 = 5432;

/// `key = v1, v2, ...`, or nothing for an absent or empty list.
pub open spec fn comma_setting(key: Seq<char>, values: Option<Vec<String>>) -> Seq<char> {
    match values {
        Some(v) => if v@.len() == 0 {
            Seq::empty()
        } else {
            setting_line(key, comma_joined(v@.map_values(|s: String| s@)))
        },
        None => Seq::empty(),
    }
}

/// The `[pgbouncer]` section.
pub open spec fn pgbouncer_section(settings: PgBouncerSettings) -> Seq<char> {
    section_line("pgbouncer"@) + setting_line("pool_mode"@, settings.pool_mode.text())
        + setting_line("listen_port"@, signed_decimal(PG_BOUNCER_PORT as int)) + setting_line(
        "listen_addr"@,
        "0.0.0.0"@,
    ) + setting_line("auth_type"@, settings.auth_type.text()) + comma_setting(
        "admin_users"@,
        settings.admin_users,
    ) + comma_setting("ignore_startup_parameters"@, settings.ignore_startup_parameters)
        + setting_line("server_tls_sslmode"@, settings.server_tls_ssl_mode.text()) + setting_line(
        "client_tls_sslmode"@,
        settings.client_tls_ssl_mode.text(),
    ) + setting_line("max_client_conn"@, decimal(settings.max_client_conn as nat)) + setting_line(
        "max_db_connections"@,
        decimal(settings.max_db_connections as nat),
    ) + setting_line("auth_file"@, "/etc/pgbouncer/userlist.txt"@)
}

/// `part` followed by a space when the value is present, nothing otherwise.
pub open spec fn optional_part(part: Seq<char>, value: Option<Seq<char>>) -> Seq<char> {
    match value {
        Some(v) => part + v + seq![' '],
        None => Seq::empty(),
    }
}

/// The connection string of a route: `host=<h> ` and then, each where
/// present, `port=<p> `, `user=<u> `, `dbname=<n> `.
pub open spec fn database_value(db: PgBouncerDatabaseSpec) -> Seq<char> {
    "host="@ + db.host@ + seq![' '] + optional_part(
        "port="@,
        match db.port {
            Some(p) => Some(decimal(p as nat)),
            None => None,
        },
    ) + optional_part(
        "user="@,
        match db.user {
            Some(u) => Some(u@),
            None => None,
        },
    ) + optional_part(
        "dbname="@,
        match db.internal_database_name {
            Some(n) => Some(n@),
            None => None,
        },
    )
}

/// One `name = connection string` line per route, in order.
pub open spec fn database_lines(dbs: Seq<PgBouncerDatabaseSpec>) -> Seq<char>
    decreases dbs.len(),
{
    if dbs.len() == 0 {
        Seq::empty()
    } else {
        database_lines(dbs.drop_last()) + setting_line(
            dbs.last().exposed_database_name@,
            database_value(dbs.last()),
        )
    }
}

/// The whole `pgbouncer.ini`.
pub open spec fn pgbouncer_ini(spec: PgBouncerSpec, dbs: Seq<PgBouncerDatabaseSpec>) -> Seq<char> {
    pgbouncer_section(spec.pg_bouncer) + section_line("databases"@) + database_lines(dbs)
}

fn add_comma_list(builder: &mut IniBuilder, key: &str, values: &Option<Vec<String>>)
    ensures
        final(builder).output@ == old(builder).output@ + comma_setting(key@, *values),
{
    if let Some(v) = values {
        builder.add_comma_separated(key, v);
        assert(v@.map_values(|s: String| s.ini_text()) =~= v@.map_values(|s: String| s@));
    }
}

/// The connection string of one route.
fn database_connection_string(db: &PgBouncerDatabaseSpec) -> (r: String)
    ensures
        r@ == database_value(*db),
{
    let mut value = String::new();
    value.append("host=");
    value.append(db.host.as_str());
    value.append(" ");
    let ghost head = value@;
    if let Some(port) = &db.port {
        value.append("port=");
        push_decimal(&mut value, *port as u64);
        value.append(" ");
    }
    let ghost with_port = value@;
    if let Some(user) = &db.user {
        value.append("user=");
        value.append(user.as_str());
        value.append(" ");
    }
    let ghost with_user = value@;
    if let Some(name) = &db.internal_database_name {
        value.append("dbname=");
        value.append(name.as_str());
        value.append(" ");
    }
    proof {
        reveal_strlit(" ");
        let d = *db;
        let port_part = optional_part(
            "port="@,
            match d.port {
                Some(p) => Some(decimal(p as nat)),
                None => None,
            },
        );
        let user_part = optional_part(
            "user="@,
            match d.user {
                Some(u) => Some(u@),
                None => None,
            },
        );
        let name_part = optional_part(
            "dbname="@,
            match d.internal_database_name {
                Some(n) => Some(n@),
                None => None,
            },
        );
        assert(head =~= "host="@ + db.host@ + seq![' ']);
        assert(with_port =~= head + port_part);
        assert(with_user =~= with_port + user_part);
        assert(value@ =~= with_user + name_part);
    }
    value
}

/// Renders `pgbouncer.ini`: the `[pgbouncer]` settings, then a
/// `[databases]` section with one line per route, in the given order.
pub fn create_pg_bouncer_ini(spec: &PgBouncerSpec, databases: &Vec<PgBouncerDatabaseSpec>) -> (r:
    String)
    ensures
        r@ == pgbouncer_ini(*spec, databases@),
{
    let mut builder = new();
    builder.add_section("pgbouncer");
    let settings = &spec.pg_bouncer;
    builder.add_setting("pool_mode", settings.pool_mode);
    builder.add_setting("listen_port", PG_BOUNCER_PORT);
    builder.add_setting("listen_addr", "0.0.0.0");
    builder.add_setting("auth_type", settings.auth_type);
    add_comma_list(&mut builder, "admin_users", &settings.admin_users);
    add_comma_list(&mut builder, "ignore_startup_parameters", &settings.ignore_startup_parameters);
    builder.add_setting("server_tls_sslmode", settings.server_tls_ssl_mode);
    builder.add_setting("client_tls_sslmode", settings.client_tls_ssl_mode);
    builder.add_setting("max_client_conn", settings.max_client_conn);
    builder.add_setting("max_db_connections", settings.max_db_connections);
    builder.add_setting("auth_file", "/etc/pgbouncer/userlist.txt");
    assert(builder.output@ =~= pgbouncer_section(spec.pg_bouncer));
    builder.add_section("databases");
    let ghost head = builder.output@;
    let mut i: usize = 0;
    while i < databases.len()
        invariant
            i <= databases@.len(),
            builder.output@ == head + database_lines(databases@.subrange(0, i as int)),
        decreases databases@.len() - i,
    {
        let db = &databases[i];
        let value = database_connection_string(db);
        builder.add_setting(db.exposed_database_name.as_str(), value);
        proof {
            assert(databases@.subrange(0, i + 1).drop_last() =~= databases@.subrange(0, i as int));
        }
        i = i + 1;
        assert(builder.output@ =~= head + database_lines(databases@.subrange(0, i as int)));
    }
    assert(databases@.subrange(0, databases@.len() as int) =~= databases@);
    assert(builder.output@ =~= pgbouncer_ini(*spec, databases@));
    builder.build()
}

/// Lexicographic order on byte strings, the order of `String`'s `Ord`.
pub open spec fn bytes_le(a: Seq<u8>, b: Seq<u8>) -> bool
    decreases a.len(),
{
    if a.len() == 0 {
        true
    } else if b.len() == 0 {
        false
    } else if a[0] != b[0] {
        a[0] < b[0]
    } else {
        bytes_le(a.drop_first(), b.drop_first())
    }
}

/// The bytes of a user's name, by which users are ordered.
pub open spec fn name_bytes(u: PgBouncerUserSpec) -> Seq<u8> {
    encode_utf8(u.username@)
}

/// `sorted` with `u` inserted after every user whose name is not greater.
pub open spec fn insert_by_name(sorted: Seq<PgBouncerUserSpec>, u: PgBouncerUserSpec) -> Seq<
    PgBouncerUserSpec,
>
    decreases sorted.len(),
{
    if sorted.len() == 0 {
        seq![u]
    } else if bytes_le(name_bytes(sorted.last()), name_bytes(u)) {
        sorted.push(u)
    } else {
        insert_by_name(sorted.drop_last(), u).push(sorted.last())
    }
}

/// The users in ascending order of their names' bytes; users with equal
/// names keep their relative order (a stable sort).
pub open spec fn sorted_by_name(users: Seq<PgBouncerUserSpec>) -> Seq<PgBouncerUserSpec>
    decreases users.len(),
{
    if users.len() == 0 {
        users
    } else {
        insert_by_name(sorted_by_name(users.drop_last()), users.last())
    }
}

/// What the fingerprint hashes: each user's name bytes, then the bytes
/// of its declared password, in order.
pub open spec fn hash_input(users: Seq<PgBouncerUserSpec>) -> Seq<u8>
    decreases users.len(),
{
    if users.len() == 0 {
        Seq::empty()
    } else {
        hash_input(users.drop_last()) + encode_utf8(users.last().username@) + encode_utf8(
            users.last().password.raw(),
        )
    }
}

/// The fingerprint of the user list: the lowercase hex SHA-256 digest of
/// the sorted users' names and declared passwords.
pub open spec fn userlist_hash(users: Seq<PgBouncerUserSpec>) -> Seq<char> {
    lower_hex(sha256_digest(hash_input(sorted_by_name(users))))
}

/// `"name" "password"` and a line break, the password as stored for the
/// user, with `salt` for a SCRAM verifier.
pub open spec fn user_line(u: PgBouncerUserSpec, salt: Seq<u8>) -> Seq<char> {
    seq!['"'] + u.username@ + seq!['"', ' ', '"'] + u.password.password_text(u.username@, salt)
        + seq!['"', '\n']
}

/// One line per user, in order; the i-th user's verifier uses the i-th salt.
pub open spec fn user_lines(users: Seq<PgBouncerUserSpec>, salts: Seq<Seq<u8>>) -> Seq<char>
    decreases users.len(),
{
    if users.len() == 0 {
        Seq::empty()
    } else {
        user_lines(users.drop_last(), salts.drop_last()) + user_line(users.last(), salts.last())
    }
}

/// `userlist.txt` where every SCRAM verifier is computed with `salt`.
pub open spec fn userlist_text(users: Seq<PgBouncerUserSpec>, salt: Seq<u8>) -> Seq<char> {
    user_lines(sorted_by_name(users), Seq::new(users.len(), |i: int| salt))
}

/// Relies on `Itertools::sorted_by_key`, which sorts with the standard
/// library's stable `sort_by_key`, keyed here by the user name; `String`s
/// compare by their bytes, lexicographically. A stable sort by name is what
/// `sorted_by_name` describes.
#[verifier::external_body]
fn sort_by_username(users: &Vec<PgBouncerUserSpec>) -> (r: Vec<PgBouncerUserSpec>)
    ensures
        r@ == sorted_by_name(users@),
{
    itertools::Itertools::sorted_by_key(users.iter(), |u| &u.username).cloned().collect()
}

proof fn lemma_insert_len(sorted: Seq<PgBouncerUserSpec>, u: PgBouncerUserSpec)
    ensures
        insert_by_name(sorted, u).len() == sorted.len() + 1,
    decreases sorted.len(),
{
    if sorted.len() > 0 && !bytes_le(name_bytes(sorted.last()), name_bytes(u)) {
        lemma_insert_len(sorted.drop_last(), u);
    }
}

proof fn lemma_sorted_len(users: Seq<PgBouncerUserSpec>)
    ensures
        sorted_by_name(users).len() == users.len(),
    decreases users.len(),
{
    if users.len() > 0 {
        lemma_sorted_len(users.drop_last());
        lemma_insert_len(sorted_by_name(users.drop_last()), users.last());
    }
}

/// Appends `"name" "password"` and a line break.
fn push_user_line(text: &mut String, username: &String, password_text: &String)
    ensures
        final(text)@ == old(text)@ + seq!['"'] + username@ + seq!['"', ' ', '"'] + password_text@
            + seq!['"', '\n'],
{
    text.append("\"");
    text.append(username.as_str());
    text.append("\" \"");
    text.append(password_text.as_str());
    text.append("\"\n");
    proof {
        reveal_strlit("\"");
        reveal_strlit("\" \"");
        reveal_strlit("\"\n");
    }
    assert(final(text)@ =~= old(text)@ + seq!['"'] + username@ + seq!['"', ' ', '"']
        + password_text@ + seq!['"', '\n']);
}

/// The fingerprint of users already in order.
fn hash_of_sorted(sorted: &Vec<PgBouncerUserSpec>) -> (r: String)
    ensures
        r@ == lower_hex(sha256_digest(hash_input(sorted@))),
{
    let mut hashed: Vec<u8> = Vec::new();
    let mut i: usize = 0;
    while i < sorted.len()
        invariant
            i <= sorted@.len(),
            hashed@ == hash_input(sorted@.subrange(0, i as int)),
        decreases sorted@.len() - i,
    {
        let user = &sorted[i];
        push_all(&mut hashed, user.username.as_str().as_bytes());
        push_all(&mut hashed, user.password.get_raw_text().as_bytes());
        proof {
            assert(sorted@.subrange(0, i + 1).drop_last() =~= sorted@.subrange(0, i as int));
        }
        i = i + 1;
    }
    assert(sorted@.subrange(0, sorted@.len() as int) =~= sorted@);
    let digest = sha256_of(hashed.as_slice());
    encode_lower_hex(digest.as_slice())
}

/// Renders `userlist.txt` and its fingerprint. Users are sorted by name;
/// each line holds the name and the password as stored for it, where a
/// SCRAM verifier gets a fresh random salt. The fingerprint hashes the
/// declared passwords, so it does not depend on the salts.
pub fn create_user_list(users: &Vec<PgBouncerUserSpec>) -> (r: (String, String))
    ensures
        exists|salts: Seq<Seq<u8>>|
            salts.len() == users@.len() && (forall|k: int|
                0 <= k < salts.len() ==> (#[trigger] salts[k]).len() == SCRAM_DEFAULT_SALT_LEN)
                && r.0@ == user_lines(sorted_by_name(users@), salts),
        r.1@ == userlist_hash(users@),
{
    let sorted = sort_by_username(users);
    proof {
        lemma_sorted_len(users@);
    }
    let mut text = String::new();
    let ghost mut salts: Seq<Seq<u8>> = Seq::empty();
    let mut i: usize = 0;
    while i < sorted.len()
        invariant
            i <= sorted@.len(),
            salts.len() == i,
            forall|k: int| 0 <= k < salts.len() ==> (#[trigger] salts[k]).len()
                == SCRAM_DEFAULT_SALT_LEN,
            text@ == user_lines(sorted@.subrange(0, i as int), salts),
        decreases sorted@.len() - i,
    {
        let user = &sorted[i];
        let password_text = user.password.get_password_text(user.username.as_str());
        let ghost salt = choose|salt: Seq<u8>|
            salt.len() == SCRAM_DEFAULT_SALT_LEN && password_text@ == user.password.password_text(
                user.username@,
                salt,
            );
        push_user_line(&mut text, &user.username, &password_text);
        proof {
            assert(sorted@.subrange(0, i + 1).drop_last() =~= sorted@.subrange(0, i as int));
            assert(salts.push(salt).drop_last() =~= salts);
            salts = salts.push(salt);
        }
        i = i + 1;
    }
    assert(sorted@.subrange(0, sorted@.len() as int) =~= sorted@);
    let hash = hash_of_sorted(&sorted);
    (text, hash)
}

/// Renders `userlist.txt` and its fingerprint as `create_user_list` does,
/// with `salt` for every SCRAM verifier.
pub fn create_user_list_with_salt(users: &Vec<PgBouncerUserSpec>, salt: &[u8; 16]) -> (r: (
    String,
    String,
))
    ensures
        r.0@ == userlist_text(users@, salt@),
        r.1@ == userlist_hash(users@),
{
    let sorted = sort_by_username(users);
    proof {
        lemma_sorted_len(users@);
    }
    let mut text = String::new();
    let mut i: usize = 0;
    while i < sorted.len()
        invariant
            i <= sorted@.len(),
            text@ == user_lines(sorted@.subrange(0, i as int), Seq::new(i as nat, |k: int| salt@)),
        decreases sorted@.len() - i,
    {
        let user = &sorted[i];
        let password_text = user.password.get_password_text_with_salt(
            user.username.as_str(),
            salt,
        );
        push_user_line(&mut text, &user.username, &password_text);
        proof {
            assert(sorted@.subrange(0, i + 1).drop_last() =~= sorted@.subrange(0, i as int));
            assert(Seq::new((i + 1) as nat, |k: int| salt@).drop_last() =~= Seq::new(
                i as nat,
                |k: int| salt@,
            ));
        }
        i = i + 1;
    }
    assert(sorted@.subrange(0, sorted@.len() as int) =~= sorted@);
    let hash = hash_of_sorted(&sorted);
    (text, hash)
}

} // verus!
