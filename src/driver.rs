//! What the container driver computes around its daemon calls: pool names
//! and labels, environment assignments, port keys, and the reading of a
//! listed pool container's labels and port bindings.
use vstd::prelude::*;

use crate::dialect::{pair_views, DialectKind};
use crate::query::{i64_of, parse_i64};
use crate::text::{
    append_chars, chars_of, owned, same_text, slice_of, starts_with, starts_with_chars, str_views,
    string_of,
};

verus! {

broadcast use vstd::string::group_string_axioms;

/// What a command run inside a container printed, and its exit code if the
/// daemon reported one.
#[derive(Debug)]
pub struct ExecOutput {
    pub stdout: String,
    pub stderr: String,
    pub exit_code: Option<i64>,
}

/// A pool container found on the daemon.
#[derive(Debug)]
pub struct DiscoveredPoolContainer {
    pub container_id: String,
    pub dialect: String,
    pub host_port: u16,
    pub is_running: bool,
}

pub open spec fn pool_prefix() -> Seq<char> {
    "dbctl-pool-"@
}

/// `dbctl-pool-<dialect>`.
pub fn pool_container_name(d: DialectKind) -> (r: String)
    ensures
        r@ == pool_prefix() + d.spec_name(),
{
    let mut c = chars_of("dbctl-pool-");
    append_chars(&mut c, &chars_of(d.name()));
    string_of(&c)
}

pub open spec fn decimal_digit(d: nat) -> char {
    "0123456789"@[d as int]
}

/// The decimal digits of `n`.
pub open spec fn decimal_of(n: nat) -> Seq<char>
    decreases n,
{
    if n < 10 {
        seq![decimal_digit(n)]
    } else {
        decimal_of(n / 10).push(decimal_digit(n % 10))
    }
}

fn decimal_chars(n: u64) -> (r: Vec<char>)
    ensures
        r@ == decimal_of(n as nat),
    decreases n,
{
    let digits = chars_of("0123456789");
    proof {
        reveal_strlit("0123456789");
    }
    if n < 10 {
        let mut v: Vec<char> = Vec::new();
        v.push(digits[n as usize]);
        assert(v@ =~= decimal_of(n as nat));
        v
    } else {
        let mut v = decimal_chars(n / 10);
        v.push(digits[(n % 10) as usize]);
        v
    }
}

/// The labels of a pool container: it is a pool, of which dialect, on which port.
pub fn pool_labels(d: DialectKind) -> (r: Vec<(String, String)>)
    ensures
        pair_views(r@) == seq![
            ("dbctl-pool"@, "true"@),
            ("dbctl.dialect"@, d.spec_name()),
            ("dbctl.container_port"@, decimal_of(d.spec_port() as nat)),
        ],
{
    let mut r: Vec<(String, String)> = Vec::new();
    r.push((owned("dbctl-pool"), owned("true")));
    r.push((owned("dbctl.dialect"), owned(d.name())));
    r.push((owned("dbctl.container_port"), string_of(&decimal_chars(d.default_port() as u64))));
    assert(pair_views(r@) =~= seq![
        ("dbctl-pool"@, "true"@),
        ("dbctl.dialect"@, d.spec_name()),
        ("dbctl.container_port"@, decimal_of(d.spec_port() as nat)),
    ]);
    r
}

/// `<port>/tcp`, the daemon's key of a container port.
pub fn port_key(port: u16) -> (r: String)
    ensures
        r@ == decimal_of(port as nat) + "/tcp"@,
{
    let mut c = decimal_chars(port as u64);
    append_chars(&mut c, &chars_of("/tcp"));
    string_of(&c)
}

/// `KEY=VALUE` for each environment pair.
pub fn env_assignments(env: &Vec<(String, String)>) -> (r: Vec<String>)
    ensures
        str_views(r@) == pair_views(env@).map_values(
            |p: (Seq<char>, Seq<char>)| p.0 + "="@ + p.1,
        ),
{
    let ghost want = pair_views(env@).map_values(|p: (Seq<char>, Seq<char>)| p.0 + "="@ + p.1);
    let mut r: Vec<String> = Vec::new();
    let mut i: usize = 0;
    while i < env.len()
        invariant
            i <= env.len(),
            want == pair_views(env@).map_values(|p: (Seq<char>, Seq<char>)| p.0 + "="@ + p.1),
            str_views(r@) == want.subrange(0, i as int),
        decreases env.len() - i,
    {
        let mut c = chars_of(env[i].0.as_str());
        append_chars(&mut c, &chars_of("="));
        append_chars(&mut c, &chars_of(env[i].1.as_str()));
        let ghost before = r@;
        r.push(string_of(&c));
        assert(str_views(r@) =~= str_views(before).push(want[i as int]));
        i = i + 1;
        assert(str_views(r@) =~= want.subrange(0, i as int));
    }
    assert(want.subrange(0, env.len() as int) =~= want);
    r
}

/// A container name of the earlier one-container-per-instance layout:
/// `db-api-…` but not a pool (`db-api-pool-…`), after the `/` that the
/// daemon puts before names.
pub open spec fn is_legacy_name(name: Seq<char>) -> bool {
    let n = if name.len() > 0 && name[0] == '/' {
        name.drop_first()
    } else {
        name
    };
    starts_with(n, "db-api-"@) && !starts_with(n, "db-api-pool-"@)
}

pub fn is_legacy_container(name: &str) -> (r: bool)
    ensures
        r == is_legacy_name(name@),
{
    let v = chars_of(name);
    let n = if v.len() > 0 && v[0] == '/' {
        let t = slice_of(&v, 1, v.len());
        assert(t@ =~= v@.drop_first());
        t
    } else {
        v
    };
    starts_with_chars(&n, &chars_of("db-api-")) && !starts_with_chars(&n, &chars_of("db-api-pool-"))
}

/// What `str::parse::<u16>` accepts: an optional `+`, digits, at most 65535.
pub open spec fn u16_of(s: Seq<char>) -> Option<u16> {
    if s.len() > 0 && s[0] == '-' {
        None
    } else {
        match i64_of(s) {
            Some(v) => if 0 <= v && v <= 65535 {
                Some(v as u16)
            } else {
                None
            },
            None => None,
        }
    }
}

pub fn parse_u16(s: &str) -> (r: Option<u16>)
    ensures
        r == u16_of(s@),
{
    let v = chars_of(s);
    if v.len() > 0 && v[0] == '-' {
        return None;
    }
    match parse_i64(&v) {
        Some(n) => if 0 <= n && n <= 65535 {
            Some(n as u16)
        } else {
            None
        },
        None => None,
    }
}

/// The value of the first pair whose key is `key`.
pub open spec fn value_of(pairs: Seq<(Seq<char>, Seq<char>)>, key: Seq<char>) -> Option<Seq<char>>
    decreases pairs.len(),
{
    if pairs.len() == 0 {
        None
    } else if pairs[0].0 == key {
        Some(pairs[0].1)
    } else {
        value_of(pairs.drop_first(), key)
    }
}

fn lookup(pairs: &Vec<(String, String)>, key: &str) -> (r: Option<String>)
    ensures
        match value_of(pair_views(pairs@), key@) {
            Some(v) => r matches Some(s) && s@ == v,
            None => r is None,
        },
{
    let ghost ps = pair_views(pairs@);
    let mut i: usize = 0;
    assert(ps.subrange(0, ps.len() as int) =~= ps);
    while i < pairs.len()
        invariant
            i <= pairs.len(),
            ps == pair_views(pairs@),
            value_of(ps, key@) == value_of(ps.subrange(i as int, ps.len() as int), key@),
        decreases pairs.len() - i,
    {
        let ghost sub = ps.subrange(i as int, ps.len() as int);
        assert(sub.drop_first() =~= ps.subrange(i + 1, ps.len() as int));
        assert(sub[0] == (pairs@[i as int].0@, pairs@[i as int].1@));
        if same_text(pairs[i].0.as_str(), key) {
            return Some(pairs[i].1.clone());
        }
        i = i + 1;
    }
    None
}

/// The port named by a label, or `default` when it is missing or not a port.
pub open spec fn port_or(v: Option<Seq<char>>, default: u16) -> u16 {
    match v {
        Some(s) => match u16_of(s) {
            Some(p) => p,
            None => default,
        },
        None => default,
    }
}

/// Reads a listed container: a pool only when labelled `dbctl-pool=true` with
/// a dialect; its container port from its label (3306 when unreadable), its
/// host port from the binding of that port (0 when there is none).
pub open spec fn spec_discover(
    labels: Seq<(Seq<char>, Seq<char>)>,
    bindings: Seq<(Seq<char>, Seq<char>)>,
) -> Option<(Seq<char>, u16)> {
    if value_of(labels, "dbctl-pool"@) != Some("true"@) {
        None
    } else {
        match value_of(labels, "dbctl.dialect"@) {
            None => None,
            Some(d) => {
                let port = port_or(value_of(labels, "dbctl.container_port"@), 3306);
                Some((d, port_or(value_of(bindings, decimal_of(port as nat) + "/tcp"@), 0)))
            },
        }
    }
}

/// A listed container as a pool container, if its labels say it is one.
/// `bindings` pairs a port key with the first host port bound to it.
pub fn discover_pool(
    container_id: String,
    labels: &Vec<(String, String)>,
    bindings: &Vec<(String, String)>,
    is_running: bool,
) -> (r: Option<DiscoveredPoolContainer>)
    ensures
        match spec_discover(pair_views(labels@), pair_views(bindings@)) {
            Some((d, port)) => r matches Some(c) && c.container_id == container_id && c.dialect@
                == d && c.host_port == port && c.is_running == is_running,
            None => r is None,
        },
{
    let is_pool = match lookup(labels, "dbctl-pool") {
        Some(v) => same_text(v.as_str(), "true"),
        None => false,
    };
    if !is_pool {
        return None;
    }
    let dialect = match lookup(labels, "dbctl.dialect") {
        Some(d) => d,
        None => {
            return None;
        },
    };
    let container_port: u16 = match lookup(labels, "dbctl.container_port") {
        Some(s) => match parse_u16(s.as_str()) {
            Some(p) => p,
            None => 3306,
        },
        None => 3306,
    };
    let key = port_key(container_port);
    let host_port: u16 = match lookup(bindings, key.as_str()) {
        Some(s) => match parse_u16(s.as_str()) {
            Some(p) => p,
            None => 0,
        },
        None => 0,
    };
    Some(DiscoveredPoolContainer { container_id, dialect, host_port, is_running })
}

} // verus!
