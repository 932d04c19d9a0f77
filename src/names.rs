//! Identifiers and names derived from them: database and user names,
//! generated passwords, and backup object keys; gzip framing of dumps.
use std::io::{Read, Write};
use vstd::prelude::*;

use crate::error::AppError;
use crate::text::{append_chars, chars_of, string_of};

verus! {

broadcast use vstd::string::group_string_axioms;

pub open spec fn hex_alphabet() -> Seq<char> {
    "0123456789abcdef"@
}

/// The last `n` hexadecimal digits of `x`, most significant first.
pub open spec fn hex_of(x: nat, n: nat) -> Seq<char>
    decreases n,
{
    if n == 0 {
        Seq::empty()
    } else {
        hex_of(x / 16, (n - 1) as nat).push(hex_alphabet()[(x % 16) as int])
    }
}

/// The 32 lowercase hexadecimal digits of an id, as its simple form prints it.
pub open spec fn hex32(id: u128) -> Seq<char> {
    hex_of(id as nat, 32)
}

/// An id in its hyphenated 8-4-4-4-12 form.
pub open spec fn hyphenated(id: u128) -> Seq<char> {
    let h = hex32(id);
    h.subrange(0, 8) + "-"@ + h.subrange(8, 12) + "-"@ + h.subrange(12, 16) + "-"@
        + h.subrange(16, 20) + "-"@ + h.subrange(20, 32)
}

pub open spec fn db_name_of(id: u128) -> Seq<char> {
    "db_"@ + hex32(id)
}

pub open spec fn db_user_of(id: u128) -> Seq<char> {
    "user_"@ + hex32(id).subrange(0, 8)
}

/// A password with upper and lower case letters, digits and symbols.
pub open spec fn password_of(seed: u128) -> Seq<char> {
    "Pwd"@ + hex32(seed) + "!@#"@
}

proof fn lemma_hex_len(x: nat, n: nat)
    ensures
        hex_of(x, n).len() == n,
    decreases n,
{
    if n > 0 {
        lemma_hex_len(x / 16, (n - 1) as nat);
    }
}

fn hex_digit(d: u128) -> (c: char)
    requires
        d < 16,
    ensures
        c == hex_alphabet()[d as int],
{
    let a = chars_of("0123456789abcdef");
    proof {
        reveal_strlit("0123456789abcdef");
    }
    a[d as usize]
}

fn hex_digits(x: u128, n: usize) -> (r: Vec<char>)
    ensures
        r@ == hex_of(x as nat, n as nat),
    decreases n,
{
    if n == 0 {
        Vec::new()
    } else {
        let mut v = hex_digits(x / 16, n - 1);
        v.push(hex_digit(x % 16));
        v
    }
}

/// The 32 lowercase hexadecimal digits of `id`.
pub fn hex_id(id: u128) -> (r: Vec<char>)
    ensures
        r@ == hex32(id),
        r@.len() == 32,
{
    proof {
        lemma_hex_len(id as nat, 32);
    }
    hex_digits(id, 32)
}

fn with_prefix(prefix: &str, body: &Vec<char>, suffix: &str) -> (r: String)
    ensures
        r@ == prefix@ + body@ + suffix@,
{
    let mut c = chars_of(prefix);
    append_chars(&mut c, body);
    append_chars(&mut c, &chars_of(suffix));
    string_of(&c)
}

/// The database name of an instance: `db_` and the id's hex digits.
pub fn db_name_for(id: u128) -> (r: String)
    ensures
        r@ == db_name_of(id),
{
    let r = with_prefix("db_", &hex_id(id), "");
    proof {
        reveal_strlit("");
    }
    assert(r@ =~= db_name_of(id));
    r
}

/// The user name of an instance: `user_` and the first 8 hex digits of the id.
pub fn db_user_for(id: u128) -> (r: String)
    ensures
        r@ == db_user_of(id),
{
    let h = hex_id(id);
    let mut first: Vec<char> = Vec::new();
    let mut i: usize = 0;
    while i < 8
        invariant
            i <= 8,
            h@ == hex32(id),
            h@.len() == 32,
            first@ == h@.subrange(0, i as int),
        decreases 8 - i,
    {
        first.push(h[i]);
        i = i + 1;
        assert(first@ =~= h@.subrange(0, i as int));
    }
    let r = with_prefix("user_", &first, "");
    proof {
        reveal_strlit("");
    }
    assert(r@ =~= db_user_of(id));
    r
}

/// The password derived from a random seed: `Pwd`, 32 hex digits, `!@#`.
pub fn password_for(seed: u128) -> (r: String)
    ensures
        r@ == password_of(seed),
{
    with_prefix("Pwd", &hex_id(seed), "!@#")
}

/// 16 to the power `k`.
pub open spec fn pow16(k: nat) -> nat
    decreases k,
{
    if k == 0 {
        1
    } else {
        16 * pow16((k - 1) as nat)
    }
}

/// The hexadecimal digit of `x` that stands `k` places from the right.
pub open spec fn nibble(x: nat, k: nat) -> nat {
    (x / pow16(k)) % 16
}

/// Relies on `uuid::Uuid::new_v4` and `Uuid::as_u128`: a fresh random id of
/// version 4, whose version digit (the 13th of 32) is `4`.
#[verifier::external_body]
fn random_id() -> (r: u128)
    ensures
        nibble(r as nat, 19) == 4,
{
    uuid::Uuid::new_v4().as_u128()
}

proof fn lemma_pow16_positive(k: nat)
    ensures
        pow16(k) > 0,
    decreases k,
{
    if k > 0 {
        lemma_pow16_positive((k - 1) as nat);
    }
}

/// Digit `i` of the last `n` hex digits of `x` is the digit `n - 1 - i`
/// places from the right.
proof fn lemma_hex_digit_at(x: nat, n: nat, i: nat)
    requires
        i < n,
    ensures
        hex_of(x, n).len() == n,
        hex_of(x, n)[i as int] == hex_alphabet()[nibble(x, (n - 1 - i) as nat) as int],
    decreases n,
{
    lemma_hex_len(x, n);
    lemma_hex_len(x / 16, (n - 1) as nat);
    if i == n - 1 {
        assert(pow16(0) == 1);
    } else {
        let k = (n - 2 - i) as nat;
        lemma_hex_digit_at(x / 16, (n - 1) as nat, i);
        lemma_pow16_positive(k);
        vstd::arithmetic::div_mod::lemma_div_denominator(x as int, 16, pow16(k) as int);
        assert(pow16(k + 1) == 16 * pow16(k));
        assert((n - 1 - i) as nat == k + 1);
    }
}

pub open spec fn is_upper(c: char) -> bool {
    65 <= (c as u32) && (c as u32) <= 90
}

pub open spec fn is_lower(c: char) -> bool {
    97 <= (c as u32) && (c as u32) <= 122
}

pub open spec fn is_decimal_digit(c: char) -> bool {
    48 <= (c as u32) && (c as u32) <= 57
}

/// ASCII punctuation.
pub open spec fn is_symbol(c: char) -> bool {
    let u = c as u32;
    (33 <= u && u <= 47) || (58 <= u && u <= 64) || (91 <= u && u <= 96) || (123 <= u && u
        <= 126)
}

/// What SQL Server asks of a password: an upper and a lower case letter, a
/// digit and a symbol.
pub open spec fn is_strong_password(p: Seq<char>) -> bool {
    &&& exists|i: int| 0 <= i < p.len() && is_upper(#[trigger] p[i])
    &&& exists|i: int| 0 <= i < p.len() && is_lower(#[trigger] p[i])
    &&& exists|i: int| 0 <= i < p.len() && is_decimal_digit(#[trigger] p[i])
    &&& exists|i: int| 0 <= i < p.len() && is_symbol(#[trigger] p[i])
}

/// A password made from a version-4 id is strong.
proof fn lemma_password_strong(seed: u128)
    requires
        nibble(seed as nat, 19) == 4,
    ensures
        is_strong_password(password_of(seed)),
{
    reveal_strlit("Pwd");
    reveal_strlit("!@#");
    reveal_strlit("0123456789abcdef");
    lemma_hex_digit_at(seed as nat, 32, 12);
    let p = password_of(seed);
    let h = hex32(seed);
    assert(p[0] == 'P');
    assert(p[1] == 'w');
    assert(p[15] == h[12]);
    assert(h[12] == '4');
    assert(p[35] == '!');
}

/// A fresh random id (version 4) for a new instance.
pub fn new_instance_id() -> (r: u128)
    ensures
        nibble(r as nat, 19) == 4,
{
    random_id()
}

/// A fresh strong password.
pub fn generate_password() -> (r: String)
    ensures
        exists|seed: u128| nibble(seed as nat, 19) == 4 && r@ == password_of(seed),
        is_strong_password(r@),
{
    let seed = random_id();
    proof {
        lemma_password_strong(seed);
    }
    password_for(seed)
}

/// The `YYYYMMDD_HHMMSS` stamp of a UTC time given in seconds since the epoch.
pub uninterp spec fn utc_stamp_of(secs: i64) -> Seq<char>;

/// Times within about 250,000 years of 1970, well inside the calendar of
/// chrono (years -262143 to 262142).
pub open spec fn stamp_in_range(secs: i64) -> bool {
    -8_000_000_000_000 <= secs && secs <= 8_000_000_000_000
}

/// Relies on `chrono::DateTime::from_timestamp` (which is `None` only when the
/// day falls outside chrono's calendar) and `DateTime::format("%Y%m%d_%H%M%S")`,
/// which cannot fail on a date with a time.
#[verifier::external_body]
fn utc_stamp(secs: i64) -> (r: Option<String>)
    ensures
        r matches Some(s) ==> s@ == utc_stamp_of(secs),
        stamp_in_range(secs) ==> r is Some,
{
    match chrono::DateTime::from_timestamp(secs, 0) {
        Some(t) => Some(t.format("%Y%m%d_%H%M%S").to_string()),
        None => None,
    }
}

/// `backups/<id>/<stamp>.sql.gz`, the key of a dump taken at `secs`.
pub open spec fn backup_key_of(id: u128, secs: i64) -> Seq<char> {
    "backups/"@ + hyphenated(id) + "/"@ + utc_stamp_of(secs) + ".sql.gz"@
}

/// The object key of a dump of `id` taken at `secs`; `None` only when the
/// time is outside the calendar's range.
pub fn backup_key(id: u128, secs: i64) -> (r: Option<String>)
    ensures
        r matches Some(k) ==> k@ == backup_key_of(id, secs),
        stamp_in_range(secs) ==> r is Some,
{
    let stamp = match utc_stamp(secs) {
        Some(s) => s,
        None => {
            return None;
        },
    };
    let h = hex_id(id);
    let mut c = chars_of("backups/");
    let mut i: usize = 0;
    let ghost hx = hex32(id);
    while i < 32
        invariant
            i <= 32,
            h@ == hx,
            h@.len() == 32,
            c@ == "backups/"@ + hyphen_prefix(hx, i as int),
        decreases 32 - i,
    {
        if i == 8 || i == 12 || i == 16 || i == 20 {
            c.push('-');
        }
        c.push(h[i]);
        proof {
            reveal_strlit("-");
            lemma_hyphen_step(hx, i as int);
        }
        i = i + 1;
    }
    proof {
        reveal_strlit("-");
        lemma_hyphen_full(hx);
    }
    append_chars(&mut c, &chars_of("/"));
    append_chars(&mut c, &chars_of(stamp.as_str()));
    append_chars(&mut c, &chars_of(".sql.gz"));
    assert(c@ =~= backup_key_of(id, secs));
    Some(string_of(&c))
}

/// The first `i` hex digits of `h`, with a hyphen before positions 8, 12, 16 and 20.
pub open spec fn hyphen_prefix(h: Seq<char>, i: int) -> Seq<char>
    decreases i,
{
    if i <= 0 {
        Seq::empty()
    } else if i - 1 == 8 || i - 1 == 12 || i - 1 == 16 || i - 1 == 20 {
        hyphen_prefix(h, i - 1).push('-').push(h[i - 1])
    } else {
        hyphen_prefix(h, i - 1).push(h[i - 1])
    }
}

proof fn lemma_hyphen_step(h: Seq<char>, i: int)
    requires
        0 <= i,
    ensures
        hyphen_prefix(h, i + 1) == if i == 8 || i == 12 || i == 16 || i == 20 {
            hyphen_prefix(h, i).push('-').push(h[i])
        } else {
            hyphen_prefix(h, i).push(h[i])
        },
{
}

proof fn lemma_hyphen_full(h: Seq<char>)
    requires
        h.len() == 32,
    ensures
        hyphen_prefix(h, 32) == h.subrange(0, 8) + "-"@ + h.subrange(8, 12) + "-"@ + h.subrange(
            12,
            16,
        ) + "-"@ + h.subrange(16, 20) + "-"@ + h.subrange(20, 32),
{
    reveal_strlit("-");
    assert forall|k: int| 0 <= k <= 8 implies hyphen_prefix(h, k) == h.subrange(0, k) by {
        lemma_hyphen_prefix_plain(h, k);
    }
    reveal_with_fuel(hyphen_prefix, 33);
    assert(hyphen_prefix(h, 32) =~= h.subrange(0, 8) + "-"@ + h.subrange(8, 12) + "-"@
        + h.subrange(12, 16) + "-"@ + h.subrange(16, 20) + "-"@ + h.subrange(20, 32));
}

proof fn lemma_hyphen_prefix_plain(h: Seq<char>, k: int)
    requires
        0 <= k <= 8,
        h.len() == 32,
    ensures
        hyphen_prefix(h, k) == h.subrange(0, k),
    decreases k,
{
    if k > 0 {
        lemma_hyphen_prefix_plain(h, k - 1);
        assert(h.subrange(0, k) =~= h.subrange(0, k - 1).push(h[k - 1]));
    } else {
        assert(h.subrange(0, 0) =~= Seq::<char>::empty());
    }
}

/// The gzip stream (default level) of some bytes.
pub uninterp spec fn gzip_of(data: Seq<u8>) -> Seq<u8>;

/// The bytes a gzip stream decodes to, or `None` when it is not one.
pub uninterp spec fn gunzip_of(data: Seq<u8>) -> Option<Seq<u8>>;

/// Relies on `flate2::write::GzEncoder` at `Compression::default()`: the
/// stream depends on the bytes alone (no time stamp, fixed header), writing
/// into a `Vec` and finishing cannot fail, and `GzDecoder` reads the stream
/// back to the same bytes.
#[verifier::external_body]
fn gzip(data: &[u8]) -> (r: Option<Vec<u8>>)
    ensures
        r is Some,
        r->0@ == gzip_of(data@),
        gunzip_of(r->0@) == Some(data@),
{
    let mut enc = flate2::write::GzEncoder::new(Vec::new(), flate2::Compression::default());
    match enc.write_all(data) {
        Ok(()) => enc.finish().ok(),
        Err(_) => None,
    }
}

/// Relies on `flate2::read::GzDecoder` and `Read::read_to_end`.
#[verifier::external_body]
fn gunzip(data: &[u8]) -> (r: Option<Vec<u8>>)
    ensures
        match r {
            Some(v) => gunzip_of(data@) == Some(v@),
            None => gunzip_of(data@) is None,
        },
{
    let mut out = Vec::new();
    match flate2::read::GzDecoder::new(data).read_to_end(&mut out) {
        Ok(_) => Some(out),
        Err(_) => None,
    }
}

/// Compresses a dump for upload.
pub fn compress_dump(data: &[u8]) -> (r: Result<Vec<u8>, AppError>)
    ensures
        r matches Ok(v) && v@ == gzip_of(data@) && gunzip_of(v@) == Some(data@),
{
    match gzip(data) {
        Some(v) => Ok(v),
        None => Err(AppError::BackupFailed(crate::text::owned("Compression failed"))),
    }
}

/// Decompresses a downloaded dump; bytes that are not gzip are `RestoreFailed`.
pub fn decompress_dump(data: &[u8]) -> (r: Result<Vec<u8>, AppError>)
    ensures
        match gunzip_of(data@) {
            Some(s) => r matches Ok(v) && v@ == s,
            None => r matches Err(e) && e is RestoreFailed,
        },
{
    match gunzip(data) {
        Some(v) => Ok(v),
        None => Err(AppError::RestoreFailed(crate::text::owned("Decompression failed"))),
    }
}

} // verus!
