//! Properties of the pooler configuration and of the password encoder.

use vstd::prelude::*;
use vstd::utf8::encode_utf8;
use crate::digests::sha256_digest;
use crate::encoding::lower_hex;
use crate::ini_builder::section_line;
use crate::pooler_config::{
    bytes_le, database_lines, hash_input, insert_by_name, name_bytes, pgbouncer_ini,
    pgbouncer_section, sorted_by_name, user_lines, userlist_hash, userlist_text,
};
use crate::pooler_reconciler::{pooler_moves, PoolerConfig, PoolerEvent, PoolerCommand, PoolerState};
use crate::postgres_password::{md5_prefix, scram_prefix, starts_with, PostgresPassword};
use crate::reconcile::{owned_by, ParentResource};
use crate::types::{PgBouncerSpec, PgBouncerUserSpec};

verus! {

broadcast use {
    vstd::seq_lib::group_to_multiset_ensures,
    vstd::multiset::group_multiset_axioms,
    vstd::utf8::encode_utf8_decode_utf8,
};

proof fn lemma_bytes_le_total(a: Seq<u8>, b: Seq<u8>)
    ensures
        bytes_le(a, b) || bytes_le(b, a),
    decreases a.len(),
{
    if a.len() > 0 && b.len() > 0 && a[0] == b[0] {
        lemma_bytes_le_total(a.drop_first(), b.drop_first());
    }
}

proof fn lemma_bytes_le_antisymmetric(a: Seq<u8>, b: Seq<u8>)
    requires
        bytes_le(a, b),
        bytes_le(b, a),
    ensures
        a == b,
    decreases a.len(),
{
    if a.len() == 0 {
        assert(a =~= b);
    } else {
        lemma_bytes_le_antisymmetric(a.drop_first(), b.drop_first());
        assert forall|i: int| 0 <= i < a.len() implies a[i] == b[i] by {
            if i > 0 {
                assert(a[i] == a.drop_first()[i - 1]);
                assert(b[i] == b.drop_first()[i - 1]);
            }
        }
        assert(a =~= b);
    }
}

proof fn lemma_bytes_le_transitive(a: Seq<u8>, b: Seq<u8>, c: Seq<u8>)
    requires
        bytes_le(a, b),
        bytes_le(b, c),
    ensures
        bytes_le(a, c),
    decreases a.len(),
{
    if a.len() > 0 && a[0] == b[0] && b[0] == c[0] {
        lemma_bytes_le_transitive(a.drop_first(), b.drop_first(), c.drop_first());
    }
}

/// Users in ascending order of their names' bytes.
pub open spec fn sorted_names(s: Seq<PgBouncerUserSpec>) -> bool {
    forall|i: int, j: int|
        0 <= i < j < s.len() ==> bytes_le(#[trigger] name_bytes(s[i]), #[trigger] name_bytes(s[j]))
}

proof fn lemma_insert_by_name(s: Seq<PgBouncerUserSpec>, u: PgBouncerUserSpec)
    requires
        sorted_names(s),
    ensures
        sorted_names(insert_by_name(s, u)),
        insert_by_name(s, u).to_multiset() == s.to_multiset().insert(u),
    decreases s.len(),
{
    if s.len() == 0 {
        assert(insert_by_name(s, u) =~= s.push(u));
    } else if bytes_le(name_bytes(s.last()), name_bytes(u)) {
        let r = s.push(u);
        assert forall|i: int, j: int| 0 <= i < j < r.len() implies bytes_le(
            #[trigger] name_bytes(r[i]),
            #[trigger] name_bytes(r[j]),
        ) by {
            if j == s.len() {
                if i < s.len() - 1 {
                    lemma_bytes_le_transitive(
                        name_bytes(s[i]),
                        name_bytes(s.last()),
                        name_bytes(u),
                    );
                }
            }
        }
    } else {
        let rest = s.drop_last();
        let last = s.last();
        lemma_insert_by_name(rest, u);
        let r0 = insert_by_name(rest, u);
        let r = r0.push(last);
        lemma_bytes_le_total(name_bytes(last), name_bytes(u));
        assert forall|i: int, j: int| 0 <= i < j < r.len() implies bytes_le(
            #[trigger] name_bytes(r[i]),
            #[trigger] name_bytes(r[j]),
        ) by {
            if j == r0.len() {
                let x = r0[i];
                assert(r0.contains(x));
                assert(r0.to_multiset().count(x) > 0);
                if x != u {
                    assert(rest.to_multiset().count(x) > 0);
                    let k = choose|k: int| 0 <= k < rest.len() && rest[k] == x;
                    assert(s[k] == x);
                }
            }
        }
        assert(s =~= rest.push(last));
        assert(r.to_multiset() =~= s.to_multiset().insert(u));
    }
}

proof fn lemma_sorted_by_name(s: Seq<PgBouncerUserSpec>)
    ensures
        sorted_names(sorted_by_name(s)),
        sorted_by_name(s).to_multiset() == s.to_multiset(),
    decreases s.len(),
{
    if s.len() > 0 {
        lemma_sorted_by_name(s.drop_last());
        lemma_insert_by_name(sorted_by_name(s.drop_last()), s.last());
        assert(s =~= s.drop_last().push(s.last()));
    }
}

/// What the fingerprint sees of a user: its name and declared password.
pub open spec fn hashed_part(u: PgBouncerUserSpec) -> (Seq<char>, Seq<char>) {
    (u.username@, u.password.raw())
}

pub open spec fn hashed_parts(s: Seq<PgBouncerUserSpec>) -> Seq<(Seq<char>, Seq<char>)> {
    s.map_values(|u: PgBouncerUserSpec| hashed_part(u))
}

proof fn lemma_hash_input_of_parts(a: Seq<PgBouncerUserSpec>, b: Seq<PgBouncerUserSpec>)
    requires
        hashed_parts(a) == hashed_parts(b),
    ensures
        hash_input(a) == hash_input(b),
    decreases a.len(),
{
    assert(a.len() == hashed_parts(a).len());
    assert(b.len() == hashed_parts(b).len());
    if a.len() > 0 {
        assert(hashed_parts(a.drop_last()) =~= hashed_parts(a).drop_last());
        assert(hashed_parts(b.drop_last()) =~= hashed_parts(b).drop_last());
        assert(hashed_parts(a)[a.len() - 1] == hashed_parts(b)[b.len() - 1]);
        lemma_hash_input_of_parts(a.drop_last(), b.drop_last());
    }
}

/// Within `s`, users with the same name have the same declared password.
pub open spec fn names_determine_passwords(s: Seq<PgBouncerUserSpec>) -> bool {
    forall|x: PgBouncerUserSpec, y: PgBouncerUserSpec|
        #![trigger s.contains(x), s.contains(y)]
        s.contains(x) && s.contains(y) && x.username@ == y.username@ ==> x.password.raw()
            == y.password.raw()
}

proof fn lemma_sorted_parts_unique(a: Seq<PgBouncerUserSpec>, b: Seq<PgBouncerUserSpec>)
    requires
        sorted_names(a),
        sorted_names(b),
        a.to_multiset() == b.to_multiset(),
        names_determine_passwords(a),
    ensures
        hashed_parts(a) == hashed_parts(b),
    decreases a.len(),
{
    assert(a.len() == a.to_multiset().len());
    assert(b.len() == b.to_multiset().len());
    if a.len() == 0 {
        assert(hashed_parts(a) =~= hashed_parts(b));
    } else {
        let n = a.len() as int;
        let x = a.last();
        assert(a.contains(x));
        assert(a.to_multiset().count(x) > 0);
        assert(b.to_multiset().count(x) > 0);
        let j = choose|j: int| 0 <= j < n && b[j] == x;
        let y = b.last();
        assert(b.contains(y));
        assert(b.to_multiset().count(y) > 0);
        assert(a.to_multiset().count(y) > 0);
        let iy = choose|i: int| 0 <= i < n && a[i] == y;
        lemma_bytes_le_total(name_bytes(x), name_bytes(x));
        lemma_bytes_le_total(name_bytes(y), name_bytes(y));
        // Every user of b from position j on has x's name.
        assert forall|k: int| j <= k < n implies hashed_part(#[trigger] b[k]) == hashed_part(x) by {
            if iy < n - 1 {
                assert(bytes_le(name_bytes(a[iy]), name_bytes(a[n - 1])));
            }
            if j < n - 1 {
                assert(bytes_le(name_bytes(b[j]), name_bytes(b[n - 1])));
            }
            lemma_bytes_le_antisymmetric(name_bytes(x), name_bytes(y));
            if j < k {
                assert(bytes_le(name_bytes(b[j]), name_bytes(b[k])));
            }
            if k < n - 1 {
                assert(bytes_le(name_bytes(b[k]), name_bytes(b[n - 1])));
            }
            lemma_bytes_le_antisymmetric(name_bytes(x), name_bytes(b[k]));
            assert(b[k].username@ == x.username@) by {
                assert(vstd::utf8::decode_utf8(encode_utf8(b[k].username@)) == b[k].username@);
                assert(vstd::utf8::decode_utf8(encode_utf8(x.username@)) == x.username@);
            }
            assert(b.contains(b[k]));
            assert(b.to_multiset().count(b[k]) > 0);
            assert(a.to_multiset().count(b[k]) > 0);
            assert(a.contains(b[k]));
        }
        let a2 = a.drop_last();
        let b2 = b.remove(j);
        assert(a =~= a2.push(x));
        assert(a2.to_multiset() =~= a.to_multiset().remove(x));
        assert(b2.to_multiset() == b.to_multiset().remove(x));
        assert forall|i: int, k: int| 0 <= i < k < b2.len() implies bytes_le(
            #[trigger] name_bytes(b2[i]),
            #[trigger] name_bytes(b2[k]),
        ) by {
            let bi = if i < j { i } else { i + 1 };
            let bk = if k < j { k } else { k + 1 };
            assert(b2[i] == b[bi]);
            assert(b2[k] == b[bk]);
        }
        assert forall|u: PgBouncerUserSpec, v: PgBouncerUserSpec|
            a2.contains(u) && a2.contains(v) && u.username@ == v.username@ implies u.password.raw()
            == v.password.raw() by {
            let iu = choose|i: int| 0 <= i < a2.len() && a2[i] == u;
            let iv = choose|i: int| 0 <= i < a2.len() && a2[i] == v;
            assert(a[iu] == u);
            assert(a[iv] == v);
            assert(a.contains(u));
            assert(a.contains(v));
        }
        lemma_sorted_parts_unique(a2, b2);
        assert(hashed_parts(a) =~= hashed_parts(a2).push(hashed_part(x)));
        assert forall|k: int| 0 <= k < n implies #[trigger] hashed_parts(b)[k] == hashed_parts(
            b2,
        ).push(hashed_part(x))[k] by {
            if k < j {
                assert(b2[k] == b[k]);
            } else if k < n - 1 {
                assert(b2[k] == b[k + 1]);
            }
        }
        assert(hashed_parts(b) =~= hashed_parts(b2).push(hashed_part(x)));
    }
}

/// Reordering the users leaves the user-list fingerprint unchanged, as long
/// as users with the same name have the same declared password.
pub proof fn lemma_userlist_hash_permutation(a: Seq<PgBouncerUserSpec>, b: Seq<PgBouncerUserSpec>)
    requires
        a.to_multiset() == b.to_multiset(),
        names_determine_passwords(a),
    ensures
        userlist_hash(a) == userlist_hash(b),
{
    let sa = sorted_by_name(a);
    let sb = sorted_by_name(b);
    lemma_sorted_by_name(a);
    lemma_sorted_by_name(b);
    assert forall|u: PgBouncerUserSpec, v: PgBouncerUserSpec|
        sa.contains(u) && sa.contains(v) && u.username@ == v.username@ implies u.password.raw()
        == v.password.raw() by {
        assert(sa.to_multiset().count(u) > 0);
        assert(sa.to_multiset().count(v) > 0);
        assert(a.to_multiset().count(u) > 0);
        assert(a.to_multiset().count(v) > 0);
        assert(a.contains(u));
        assert(a.contains(v));
    }
    lemma_sorted_parts_unique(sa, sb);
    lemma_hash_input_of_parts(sa, sb);
}

/// Two materializations of the user list that used the same SCRAM salt for
/// every user produce the same `userlist.txt`, namely the one rendered with
/// that salt; the fingerprint does not depend on the salts at all.
pub proof fn lemma_userlist_repeatable(
    users: Seq<PgBouncerUserSpec>,
    salt: Seq<u8>,
    first: Seq<Seq<u8>>,
    second: Seq<Seq<u8>>,
)
    requires
        first.len() == users.len(),
        second.len() == users.len(),
        forall|k: int| 0 <= k < first.len() ==> first[k] == salt,
        forall|k: int| 0 <= k < second.len() ==> second[k] == salt,
    ensures
        user_lines(sorted_by_name(users), first) == user_lines(sorted_by_name(users), second),
        user_lines(sorted_by_name(users), first) == userlist_text(users, salt),
{
    assert(first =~= second);
    assert(first =~= Seq::new(users.len(), |i: int| salt));
}

/// The ConfigMap, Deployment and Service described by `config` each carry
/// exactly one owner reference: `parent`, as controller.
pub open spec fn objects_owned(config: PoolerConfig, parent: ParentResource) -> bool {
    &&& owned_by(config.children.config_map, parent)
    &&& owned_by(config.children.deployment, parent)
    &&& owned_by(config.children.service, parent)
}

/// Whatever configuration the state holds describes objects owned by `parent`.
pub open spec fn pooler_state_owned(state: PoolerState, parent: ParentResource) -> bool {
    match state {
        PoolerState::FetchingConfigMap(c) => objects_owned(c, parent),
        PoolerState::ApplyingConfigMap(c) => objects_owned(c, parent),
        PoolerState::ApplyingDeployment(c) => objects_owned(c, parent),
        PoolerState::ApplyingService(c) => objects_owned(c, parent),
        _ => true,
    }
}

/// Every object a PgBouncer reconcile writes is owned by that PgBouncer
/// alone, as controller: this holds of the first state, and each step of
/// the machine keeps it.
pub proof fn lemma_pooler_objects_owned(
    state: PoolerState,
    event: PoolerEvent,
    next: PoolerState,
    command: PoolerCommand,
    parent: ParentResource,
    spec: PgBouncerSpec,
)
    requires
        pooler_state_owned(state, parent),
        pooler_moves(state, event, next, command, parent, spec),
    ensures
        pooler_state_owned(PoolerState::Start, parent),
        pooler_state_owned(next, parent),
{
}

/// With no users, `userlist.txt` is empty and the fingerprint is the hex
/// SHA-256 digest of no bytes at all, whatever the salt.
pub proof fn lemma_empty_userlist(salt: Seq<u8>)
    ensures
        userlist_text(Seq::empty(), salt) == Seq::<char>::empty(),
        userlist_hash(Seq::empty()) == lower_hex(sha256_digest(Seq::empty())),
{
}

/// With no routes, `pgbouncer.ini` ends with a `[databases]` header and
/// no entries.
pub proof fn lemma_no_databases(spec: PgBouncerSpec)
    ensures
        pgbouncer_ini(spec, Seq::empty()) == pgbouncer_section(spec.pg_bouncer) + section_line(
            "databases"@,
        ),
{
    assert(database_lines(Seq::empty()) == Seq::<char>::empty());
    assert(pgbouncer_ini(spec, Seq::empty()) =~= pgbouncer_section(spec.pg_bouncer) + section_line(
        "databases"@,
    ));
}

/// An MD5 password that already carries the `md5` prefix is stored as
/// given, for every user name.
pub proof fn lemma_md5_prefixed_kept(s: String, username: Seq<char>, salt: Seq<u8>)
    requires
        starts_with(s@, md5_prefix()),
    ensures
        PostgresPassword::Md5(s).password_text(username, salt) == s@,
{
}

/// A SCRAM password that already carries the `SCRAM-SHA-256$` prefix is
/// stored as given, for every user name and salt.
pub proof fn lemma_scram_prefixed_kept(s: String, username: Seq<char>, salt: Seq<u8>)
    requires
        starts_with(s@, scram_prefix()),
    ensures
        PostgresPassword::ScramSha256(s).password_text(username, salt) == s@,
{
}

} // verus!
