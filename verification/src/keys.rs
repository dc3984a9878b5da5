//! API-key management: hashing, token validation, key generation and the
//! age-based rotation policy.
//!
//! Reading and writing the key file is the caller's business; everything
//! that can be decided from plain values — what a token hashes to, whether
//! it matches the stored hash, what a fresh key looks like, when a key must
//! rotate — is decided and verified here.
use vstd::prelude::*;

verus! {

use vstd::string::*;
use crate::response::ApiError;
use crate::text::push_char;
use crate::text::starts_with;
use crate::text::str_starts_with;

/// The SHA-256 digest of a byte sequence, as computed by the hasher.
pub uninterp spec fn sha256_of(data: Seq<u8>) -> Seq<u8>;

/// Relies on sha2's `Sha256`: the digest depends on the input bytes alone
/// and is 32 bytes long.
#[verifier::external_body]
fn sha256_digest(data: &[u8]) -> (r: Vec<u8>)
    ensures
        r@ == sha256_of(data@),
        r@.len() == 32,
{
    <sha2::Sha256 as sha2::Digest>::digest(data).to_vec()
}

/// The lower-case hexadecimal digit for `d`.
pub open spec fn hex_digit(d: int) -> char {
    if d == 0 {
        '0'
    } else if d == 1 {
        '1'
    } else if d == 2 {
        '2'
    } else if d == 3 {
        '3'
    } else if d == 4 {
        '4'
    } else if d == 5 {
        '5'
    } else if d == 6 {
        '6'
    } else if d == 7 {
        '7'
    } else if d == 8 {
        '8'
    } else if d == 9 {
        '9'
    } else if d == 10 {
        'a'
    } else if d == 11 {
        'b'
    } else if d == 12 {
        'c'
    } else if d == 13 {
        'd'
    } else if d == 14 {
        'e'
    } else {
        'f'
    }
}

/// The lower-case hexadecimal encoding of a byte sequence: two digits per
/// byte, high nibble first.
pub open spec fn spec_hex(data: Seq<u8>) -> Seq<char>
    decreases data.len(),
{
    if data.len() == 0 {
        Seq::empty()
    } else {
        spec_hex(data.drop_last()).push(hex_digit(data.last() as int / 16)).push(
            hex_digit(data.last() as int % 16),
        )
    }
}

fn hex_digit_char(d: u8) -> (c: char)
    requires
        d < 16,
    ensures
        c == hex_digit(d as int),
{
    if d == 0 {
        '0'
    } else if d == 1 {
        '1'
    } else if d == 2 {
        '2'
    } else if d == 3 {
        '3'
    } else if d == 4 {
        '4'
    } else if d == 5 {
        '5'
    } else if d == 6 {
        '6'
    } else if d == 7 {
        '7'
    } else if d == 8 {
        '8'
    } else if d == 9 {
        '9'
    } else if d == 10 {
        'a'
    } else if d == 11 {
        'b'
    } else if d == 12 {
        'c'
    } else if d == 13 {
        'd'
    } else if d == 14 {
        'e'
    } else {
        'f'
    }
}

/// Lower-case hexadecimal encoding: two digits per byte, high nibble first.
pub fn hex_encode(data: &Vec<u8>) -> (r: String)
    ensures
        r@ == spec_hex(data@),
{
    let n = data.len();
    let mut out = String::new();
    let mut i: usize = 0;
    while i < n
        invariant
            i <= n,
            n == data@.len(),
            out@ == spec_hex(data@.subrange(0, i as int)),
        decreases n - i,
    {
        proof {
            assert(data@.subrange(0, i + 1).drop_last() =~= data@.subrange(0, i as int));
            assert(data@.subrange(0, i + 1).last() == data@[i as int]);
        }
        let b = data[i];
        push_char(&mut out, hex_digit_char(b / 16));
        push_char(&mut out, hex_digit_char(b % 16));
        i = i + 1;
    }
    proof {
        assert(data@.subrange(0, n as int) =~= data@);
    }
    out
}

/// What a key string hashes to for storage and comparison: the lower-case
/// hex encoding of the SHA-256 digest of its UTF-8 bytes.
pub open spec fn spec_hash_key(key: Seq<char>) -> Seq<char> {
    spec_hex(sha256_of(vstd::utf8::encode_utf8(key)))
}

/// An ASCII letter or digit.
pub open spec fn is_alphanumeric_char(c: char) -> bool {
    (97 <= c as int && c as int <= 122) || (65 <= c as int && c as int <= 90) || (48 <= c as int
        && c as int <= 57)
}

/// One of the punctuation characters mixed into generated keys.
pub open spec fn is_special_char(c: char) -> bool {
    "!@#$%^&*()_+-=[]{}|;:,.<>?"@.contains(c)
}

/// Relies on rand's `random_range`: the result lies within the given
/// bounds. The value itself is random and nothing more is assumed of it.
#[verifier::external_body]
fn random_key_length() -> (n: usize)
    ensures
        24 <= n <= 64,
{
    rand::random_range(24..=64)
}

/// Relies on rand's `random_range`: the result lies below the bound. The
/// value itself is random and nothing more is assumed of it.
#[verifier::external_body]
fn random_index(n: usize) -> (i: usize)
    requires
        n >= 1,
    ensures
        i < n,
{
    rand::random_range(0..n)
}

/// Relies on rand's `Alphanumeric` distribution: every sample is an ASCII
/// letter or digit. Which ones come out is random and nothing more is
/// assumed.
#[verifier::external_body]
fn random_alphanumeric(len: usize) -> (s: String)
    ensures
        s@.len() == len,
        forall|i: int| 0 <= i < s@.len() ==> is_alphanumeric_char(s@[i]),
{
    rand::RngExt::sample_iter(rand::rng(), rand::distr::Alphanumeric).take(len).map(
        char::from,
    ).collect()
}

/// One of the punctuation characters, by position.
fn special_char(i: usize) -> (c: char)
    requires
        i < 26,
    ensures
        is_special_char(c),
{
    proof {
        reveal_strlit("!@#$%^&*()_+-=[]{}|;:,.<>?");
    }
    let c = "!@#$%^&*()_+-=[]{}|;:,.<>?".get_char(i);
    proof {
        assert(is_special_char(c)) by {
            assert("!@#$%^&*()_+-=[]{}|;:,.<>?"@[i as int] == c);
        }
    }
    c
}

/// Replaces the character at position `i`.
fn replace_char_at(s: String, i: usize, c: char) -> (r: String)
    requires
        i < s@.len(),
    ensures
        r@ == s@.update(i as int, c),
{
    let len = s.as_str().unicode_len();
    let front = s.as_str().substring_char(0, i);
    let mut out = String::from_str(front);
    push_char(&mut out, c);
    let back = s.as_str().substring_char(i + 1, len);
    let r = out.concat(back);
    proof {
        assert(r@ =~= s@.update(i as int, c));
    }
    r
}

/// What the age policy decides for a key of a given age.
#[derive(Clone, Copy, PartialEq, Eq, Structural, Debug)]
pub enum KeyAction {
    /// The key is past its hard limit: generate and store a new one.
    Rotate,
    /// The key is past the warning age: keep it, but warn.
    Warn,
    /// The key is fresh enough.
    Keep,
}

/// Manages the API key's hash: validates presented tokens against it,
/// generates replacement keys, and decides rotation from the key's age.
pub struct KeyManager {
    key_path: String,
    hash: String,
    ttl_warning_days: u64,
    ttl_limit_days: u64,
}

impl KeyManager {
    /// Where the caller stores the key hash.
    pub closed spec fn spec_key_path(self) -> Seq<char> {
        self.key_path@
    }

    /// The stored hash the manager validates against.
    pub closed spec fn spec_hash(self) -> Seq<char> {
        self.hash@
    }

    /// The age, in days, past which a key draws a warning.
    pub closed spec fn spec_ttl_warning_days(self) -> u64 {
        self.ttl_warning_days
    }

    /// The age, in days, past which a key is rotated.
    pub closed spec fn spec_ttl_limit_days(self) -> u64 {
        self.ttl_limit_days
    }

    /// A manager for the key stored at `key_path`, with no hash loaded yet;
    /// the caller follows up with `install_hash` (key file read) or
    /// `refresh_key` (no key file yet).
    pub fn new(key_path: &str, ttl_warning_days: u64, ttl_limit_days: u64) -> (r: Self)
        ensures
            r.spec_key_path() == key_path@,
            r.spec_hash().len() == 0,
            r.spec_ttl_warning_days() == ttl_warning_days,
            r.spec_ttl_limit_days() == ttl_limit_days,
    {
        KeyManager {
            key_path: String::from_str(key_path),
            hash: String::new(),
            ttl_warning_days,
            ttl_limit_days,
        }
    }

    fn hash_key(key: &str) -> (r: String)
        ensures
            r@ == spec_hash_key(key@),
    {
        let digest = sha256_digest(key.as_bytes());
        hex_encode(&digest)
    }

    /// Loads a previously stored hash.
    pub fn install_hash(&mut self, hash: String)
        ensures
            final(self).spec_hash() == hash@,
            final(self).spec_key_path() == old(self).spec_key_path(),
            final(self).spec_ttl_warning_days() == old(self).spec_ttl_warning_days(),
            final(self).spec_ttl_limit_days() == old(self).spec_ttl_limit_days(),
    {
        self.hash = hash;
    }

    /// The stored hash, for the caller to persist.
    pub fn current_hash(&self) -> (h: &String)
        ensures
            h@ == self.spec_hash(),
    {
        &self.hash
    }

    /// A token is valid exactly when its hash equals the stored hash.
    pub fn validate_token(&self, token: &str) -> (r: bool)
        ensures
            r == (spec_hash_key(token@) == self.spec_hash()),
    {
        let computed = Self::hash_key(token);
        computed == self.hash
    }

    /// Generates a fresh key — 24 to 64 alphanumeric characters with
    /// punctuation mixed in — stores its hash, and returns the plaintext
    /// key, which from now on is the only token that validates.
    pub fn refresh_key(&mut self) -> (key: String)
        ensures
            final(self).spec_hash() == spec_hash_key(key@),
            24 <= key@.len() <= 64,
            exists|i: int| 0 <= i < key@.len() && is_special_char(key@[i]),
            forall|i: int|
                0 <= i < key@.len() ==> is_alphanumeric_char(#[trigger] key@[i]) || is_special_char(
                    key@[i],
                ),
            final(self).spec_key_path() == old(self).spec_key_path(),
            final(self).spec_ttl_warning_days() == old(self).spec_ttl_warning_days(),
            final(self).spec_ttl_limit_days() == old(self).spec_ttl_limit_days(),
    {
        let len = random_key_length();
        let mut key = random_alphanumeric(len);
        let mut it: usize = 0;
        while it < 5
            invariant
                key@.len() == len,
                24 <= len <= 64,
                it <= 5,
                it > 0 ==> exists|i: int| 0 <= i < key@.len() && is_special_char(key@[i]),
                forall|i: int|
                    0 <= i < key@.len() ==> is_alphanumeric_char(#[trigger] key@[i])
                        || is_special_char(key@[i]),
            decreases 5 - it,
        {
            let pos = random_index(len);
            let c = special_char(random_index(26));
            key = replace_char_at(key, pos, c);
            proof {
                assert(key@[pos as int] == c);
            }
            it = it + 1;
        }
        let hash = Self::hash_key(key.as_str());
        self.hash = hash;
        key
    }

    /// Authorizes one request from its Authorization header: a missing or
    /// non-Bearer header is unauthorized; a Bearer token that does not hash
    /// to the stored hash is forbidden; only the matching token passes.
    pub fn authorize(&self, auth_header: Option<&str>) -> (r: Result<(), ApiError>)
        ensures
            auth_header is None ==> (r matches Err(e) && e is Unauthorized),
            auth_header matches Some(h) ==> if starts_with(h@, "Bearer "@) {
                if spec_hash_key(h@.skip(7)) == self.spec_hash() {
                    r is Ok
                } else {
                    r matches Err(e) && e is Forbidden
                }
            } else {
                r matches Err(e) && e is Unauthorized
            },
    {
        match auth_header {
            None => Err(ApiError::Unauthorized),
            Some(h) => {
                proof {
                    reveal_strlit("Bearer ");
                }
                if str_starts_with(h, "Bearer ") {
                    let len = h.unicode_len();
                    let token = h.substring_char(7, len);
                    proof {
                        assert(token@ =~= h@.skip(7));
                    }
                    if self.validate_token(token) {
                        Ok(())
                    } else {
                        Err(ApiError::Forbidden)
                    }
                } else {
                    Err(ApiError::Unauthorized)
                }
            },
        }
    }

    /// The age policy: past the hard limit the key is rotated; past the
    /// warning age it is kept with a warning; otherwise it is kept quietly.
    pub fn key_action(&self, age_days: u64) -> (a: KeyAction)
        ensures
            age_days > self.spec_ttl_limit_days() ==> a == KeyAction::Rotate,
            self.spec_ttl_warning_days() < age_days <= self.spec_ttl_limit_days() ==> a
                == KeyAction::Warn,
            (age_days <= self.spec_ttl_warning_days() && age_days <= self.spec_ttl_limit_days())
                ==> a == KeyAction::Keep,
    {
        if age_days > self.ttl_limit_days {
            KeyAction::Rotate
        } else if age_days > self.ttl_warning_days {
            KeyAction::Warn
        } else {
            KeyAction::Keep
        }
    }
}

} // verus!
