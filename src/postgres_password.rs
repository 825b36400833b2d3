//! PostgreSQL password verifiers: plain text, MD5 and SCRAM-SHA-256.

use vstd::prelude::*;
use vstd::string::StringExecFns;
use vstd::utf8::{decode_utf8, encode_utf8, valid_utf8};
use crate::digests::{
    hmac_sha256, hmac_sha256_of, md5_digest, md5_of, random_salt, saslprep, saslprep_of,
    sha256_digest, sha256_of, utf8_text,
};
use crate::encoding::{base64_standard, encode_base64, encode_lower_hex, lower_hex};
use crate::ini_builder::{decimal, push_decimal};

verus! {

broadcast use vstd::utf8::group_utf8_lib;

/// Number of iterations of the salted password function.
pub const SCRAM_DEFAULT_ITERATIONS: u32 = 4096;

/// Length of a SCRAM salt in bytes.
pub const SCRAM_DEFAULT_SALT_LEN: usize = 16;

/// A declared password: the variant says how it is to be stored.
#[derive(Debug, Clone, PartialEq)]
pub enum PostgresPassword {
    /// The plaintext password is given and stored as is with no interpretation.
    Plain(String),
    /// A plaintext or MD5 password is given. If the password is not prefixed
    /// with `md5`, then it is reencoded as md5.
    Md5(String),
    /// A plaintext or SCRAM-SHA-256 password is given. If the password is not
    /// prefixed with `SCRAM-SHA-256$`, then it is reencoded as SCRAM-SHA-256.
    ScramSha256(String),
}

/// `md5`
pub open spec fn md5_prefix() -> Seq<char> {
    seq!['m', 'd', '5']
}

/// `SCRAM-SHA-256$`
pub open spec fn scram_prefix() -> Seq<char> {
    seq!['S', 'C', 'R', 'A', 'M', '-', 'S', 'H', 'A', '-', '2', '5', '6', '$']
}

pub open spec fn starts_with(s: Seq<char>, prefix: Seq<char>) -> bool {
    prefix.len() <= s.len() && s.subrange(0, prefix.len() as int) == prefix
}

/// The MD5 verifier: `md5` and the hex digest of the password followed by
/// the user name.
pub open spec fn md5_verifier(password: Seq<u8>, username: Seq<char>) -> Seq<char> {
    md5_prefix() + lower_hex(md5_digest(password + encode_utf8(username)))
}

/// The password after SASLprep, or its own bytes where it is not UTF-8 or
/// SASLprep rejects it.
pub open spec fn scram_prepared(password: Seq<u8>) -> Seq<u8> {
    if valid_utf8(password) {
        match saslprep_of(decode_utf8(password)) {
            Some(p) => encode_utf8(p),
            None => password,
        }
    } else {
        password
    }
}

/// Bytewise exclusive or of two sequences of the same length.
pub open spec fn xor_bytes(a: Seq<u8>, b: Seq<u8>) -> Seq<u8> {
    Seq::new(a.len(), |k: int| a[k] ^ b[k])
}

/// `U_j` of `Hi`: `U_1 = HMAC(p, salt ‖ 0,0,0,1)`, `U_j = HMAC(p, U_{j-1})`.
pub open spec fn hi_block(p: Seq<u8>, salt: Seq<u8>, j: nat) -> Seq<u8>
    decreases j,
{
    if j <= 1 {
        hmac_sha256(p, salt + seq![0u8, 0u8, 0u8, 1u8])
    } else {
        hmac_sha256(p, hi_block(p, salt, (j - 1) as nat))
    }
}

/// `Hi(p, salt, i) = U_1 ⊕ U_2 ⊕ … ⊕ U_i` (RFC 5802).
pub open spec fn hi_spec(p: Seq<u8>, salt: Seq<u8>, i: nat) -> Seq<u8>
    decreases i,
{
    if i <= 1 {
        hi_block(p, salt, 1)
    } else {
        xor_bytes(hi_spec(p, salt, (i - 1) as nat), hi_block(p, salt, i))
    }
}

/// `Client Key`
pub open spec fn client_key_label() -> Seq<u8> {
    seq![67u8, 108u8, 105u8, 101u8, 110u8, 116u8, 32u8, 75u8, 101u8, 121u8]
}

/// `Server Key`
pub open spec fn server_key_label() -> Seq<u8> {
    seq![83u8, 101u8, 114u8, 118u8, 101u8, 114u8, 32u8, 75u8, 101u8, 121u8]
}

/// The SCRAM-SHA-256 verifier of a password for a given salt:
/// `SCRAM-SHA-256$<iterations>:<salt>$<StoredKey>:<ServerKey>`, base64-encoded.
pub open spec fn scram_verifier(password: Seq<u8>, salt: Seq<u8>) -> Seq<char> {
    let salted = hi_spec(scram_prepared(password), salt, SCRAM_DEFAULT_ITERATIONS as nat);
    let stored_key = sha256_digest(hmac_sha256(salted, client_key_label()));
    let server_key = hmac_sha256(salted, server_key_label());
    scram_prefix() + decimal(SCRAM_DEFAULT_ITERATIONS as nat) + seq![':'] + base64_standard(salt)
        + seq!['$'] + base64_standard(stored_key) + seq![':'] + base64_standard(server_key)
}

impl PostgresPassword {
    /// The declared string, whatever the variant.
    pub open spec fn raw(&self) -> Seq<char> {
        match self {
            PostgresPassword::Plain(s) => s@,
            PostgresPassword::Md5(s) => s@,
            PostgresPassword::ScramSha256(s) => s@,
        }
    }

    /// The text stored for the role `username`, where a SCRAM verifier is
    /// computed with `salt`.
    pub open spec fn password_text(&self, username: Seq<char>, salt: Seq<u8>) -> Seq<char> {
        match self {
            PostgresPassword::Plain(s) => s@,
            PostgresPassword::Md5(s) => if starts_with(s@, md5_prefix()) {
                s@
            } else {
                md5_verifier(encode_utf8(s@), username)
            },
            PostgresPassword::ScramSha256(s) => if starts_with(s@, scram_prefix()) {
                s@
            } else {
                scram_verifier(encode_utf8(s@), salt)
            },
        }
    }

    /// Whether the stored text depends on the salt.
    pub open spec fn needs_salt(&self) -> bool {
        self matches PostgresPassword::ScramSha256(s) && !starts_with(s@, scram_prefix())
    }

    /// The text stored for the role `username`; a SCRAM verifier gets a
    /// fresh random salt.
    pub fn get_password_text(&self, username: &str) -> (r: String)
        ensures
            exists|salt: Seq<u8>|
                salt.len() == SCRAM_DEFAULT_SALT_LEN && r@ == self.password_text(username@, salt),
            !self.needs_salt() ==> forall|salt: Seq<u8>| r@ == #[trigger] self.password_text(
                username@,
                salt,
            ),
    {
        let salt = random_salt();
        let r = self.get_password_text_with_salt(username, &salt);
        assert(salt@.len() == SCRAM_DEFAULT_SALT_LEN);
        r
    }

    /// The text stored for the role `username`, where a SCRAM verifier is
    /// computed with the given salt.
    pub fn get_password_text_with_salt(&self, username: &str, salt: &[u8; 16]) -> (r: String)
        ensures
            r@ == self.password_text(username@, salt@),
    {
        match self {
            PostgresPassword::Plain(s) => {
                let r = s.clone();
                assert(r@ == s@);
                r
            },
            PostgresPassword::Md5(s) => {
                proof {
                    reveal_strlit("md5");
                }
                assert("md5"@ =~= md5_prefix());
                if has_prefix(s.as_str(), "md5") {
                    let r = s.clone();
                    assert(r@ == s@);
                    r
                } else {
                    md5(s.as_str().as_bytes(), username)
                }
            },
            PostgresPassword::ScramSha256(s) => {
                proof {
                    reveal_strlit("SCRAM-SHA-256$");
                }
                assert("SCRAM-SHA-256$"@ =~= scram_prefix());
                if has_prefix(s.as_str(), "SCRAM-SHA-256$") {
                    let r = s.clone();
                    assert(r@ == s@);
                    r
                } else {
                    scram_sha_256_salt(s.as_str().as_bytes(), salt)
                }
            },
        }
    }

    /// A copy of the password.
    pub fn duplicate(&self) -> (r: PostgresPassword)
        ensures
            r == *self,
    {
        match self {
            PostgresPassword::Plain(s) => PostgresPassword::Plain(s.clone()),
            PostgresPassword::Md5(s) => PostgresPassword::Md5(s.clone()),
            PostgresPassword::ScramSha256(s) => PostgresPassword::ScramSha256(s.clone()),
        }
    }

    /// The declared string, whatever the variant.
    pub fn get_raw_text(&self) -> (r: &str)
        ensures
            r@ == self.raw(),
    {
        match self {
            PostgresPassword::Plain(v) => v.as_str(),
            PostgresPassword::Md5(v) => v.as_str(),
            PostgresPassword::ScramSha256(v) => v.as_str(),
        }
    }
}

/// Relies on `str::starts_with`: whether `prefix` is a prefix of `s`.
#[verifier::external_body]
fn has_prefix(s: &str, prefix: &str) -> (r: bool)
    ensures
        r == starts_with(s@, prefix@),
{
    s.starts_with(prefix)
}

/// Appends the bytes of `b` to `v`.
pub(crate) fn push_all(v: &mut Vec<u8>, b: &[u8])
    ensures
        final(v)@ == old(v)@ + b@,
{
    let mut i: usize = 0;
    while i < b.len()
        invariant
            i <= b@.len(),
            v@ == old(v)@ + b@.subrange(0, i as int),
        decreases b@.len() - i,
    {
        v.push(b[i]);
        i = i + 1;
        assert(v@ =~= old(v)@ + b@.subrange(0, i as int));
    }
    assert(b@.subrange(0, b@.len() as int) =~= b@);
}

/// Appends the text of `t` to `s`.
fn push_text(s: &mut String, t: &String)
    ensures
        final(s)@ == old(s)@ + t@,
{
    s.append(t.as_str());
}

/// Hash password using MD5 with the username as the salt:
/// `md5` followed by the lowercase hex digest of `password ‖ username`.
pub fn md5(password: &[u8], username: &str) -> (r: String)
    ensures
        r@ == md5_verifier(password@, username@),
{
    let mut salted: Vec<u8> = Vec::new();
    push_all(&mut salted, password);
    push_all(&mut salted, username.as_bytes());
    let digest = md5_of(salted.as_slice());
    let hex = encode_lower_hex(digest.as_slice());
    let mut r = String::new();
    r.append("md5");
    push_text(&mut r, &hex);
    proof {
        reveal_strlit("md5");
    }
    assert(r@ =~= md5_verifier(password@, username@));
    r
}

/// `Hi(p, salt, i)`: the salted password of RFC 5802.
fn hi(p: &[u8], salt: &[u8], i: u32) -> (r: Vec<u8>)
    requires
        i >= 1,
        salt@.len() + 4 <= usize::MAX,
    ensures
        r@ == hi_spec(p@, salt@, i as nat),
        r@.len() == 32,
{
    let mut first: Vec<u8> = Vec::new();
    push_all(&mut first, salt);
    first.push(0);
    first.push(0);
    first.push(0);
    first.push(1);
    assert(first@ =~= salt@ + seq![0u8, 0u8, 0u8, 1u8]);
    let mut prev = hmac_sha256_of(p, first.as_slice());
    let mut acc = prev.clone();
    assert(acc@ == prev@);
    let mut j: u32 = 1;
    while j < i
        invariant
            1 <= j <= i,
            prev@ == hi_block(p@, salt@, j as nat),
            acc@ == hi_spec(p@, salt@, j as nat),
            prev@.len() == 32,
            acc@.len() == 32,
        decreases i - j,
    {
        prev = hmac_sha256_of(p, prev.as_slice());
        let ghost before = acc@;
        let mut k: usize = 0;
        while k < 32
            invariant
                k <= 32,
                acc@.len() == 32,
                prev@.len() == 32,
                before.len() == 32,
                forall|m: int| 0 <= m < k ==> acc@[m] == before[m] ^ prev@[m],
                forall|m: int| k <= m < 32 ==> acc@[m] == before[m],
            decreases 32 - k,
        {
            let x = acc[k] ^ prev[k];
            acc.set(k, x);
            k = k + 1;
        }
        j = j + 1;
        assert(acc@ =~= xor_bytes(before, prev@));
    }
    acc
}

/// The SCRAM-SHA-256 verifier of a password with a caller-provided salt.
pub fn scram_sha_256_salt(password: &[u8], salt: &[u8; 16]) -> (r: String)
    ensures
        r@ == scram_verifier(password@, salt@),
{
    let prepared: Vec<u8> = match utf8_text(password) {
        Some(text) => match saslprep(text) {
            Some(p) => {
                let mut v: Vec<u8> = Vec::new();
                push_all(&mut v, p.as_str().as_bytes());
                v
            },
            None => {
                let mut v: Vec<u8> = Vec::new();
                push_all(&mut v, password);
                v
            },
        },
        None => {
            let mut v: Vec<u8> = Vec::new();
            push_all(&mut v, password);
            v
        },
    };
    assert(prepared@ =~= scram_prepared(password@));
    let salted = hi(prepared.as_slice(), salt.as_slice(), SCRAM_DEFAULT_ITERATIONS);
    let client_label: Vec<u8> = vec![67u8, 108u8, 105u8, 101u8, 110u8, 116u8, 32u8, 75u8, 101u8, 121u8];
    let server_label: Vec<u8> = vec![83u8, 101u8, 114u8, 118u8, 101u8, 114u8, 32u8, 75u8, 101u8, 121u8];
    assert(client_label@ =~= client_key_label());
    assert(server_label@ =~= server_key_label());
    let client_key = hmac_sha256_of(salted.as_slice(), client_label.as_slice());
    let stored_key = sha256_of(client_key.as_slice());
    let server_key = hmac_sha256_of(salted.as_slice(), server_label.as_slice());
    let mut r = String::new();
    r.append("SCRAM-SHA-256$");
    push_decimal(&mut r, SCRAM_DEFAULT_ITERATIONS as u64);
    r.append(":");
    push_text(&mut r, &encode_base64(salt.as_slice()));
    r.append("$");
    push_text(&mut r, &encode_base64(stored_key.as_slice()));
    r.append(":");
    push_text(&mut r, &encode_base64(server_key.as_slice()));
    proof {
        reveal_strlit("SCRAM-SHA-256$");
        reveal_strlit(":");
        reveal_strlit("$");
    }
    assert(r@ =~= scram_verifier(password@, salt@));
    r
}

/// Hash password using SCRAM-SHA-256 with a randomly-generated salt.
pub fn scram_sha_256(password: &[u8]) -> (r: String)
    ensures
        exists|salt: Seq<u8>|
            salt.len() == SCRAM_DEFAULT_SALT_LEN && r@ == scram_verifier(password@, salt),
{
    let salt = random_salt();
    scram_sha_256_salt(password, &salt)
}

} // verus!
