//! Sites and their proxy locations: the checks made before a site is stored,
//! the rows that store it, the plan that brings stored locations and backends
//! in line with a changed site, and the site read back from its rows.

use vstd::prelude::*;
use crate::records::{TbBackend, TbLocation, TbSite};
use crate::text::{
    all_digits, chars_of, contains_char, parse_u16, parse_unsigned, split_chars, split_spec, string_of, trim,
    trim_spec, unsigned_digits, vec_views,
};

verus! {

/// A certificate together with the validity period read from it (Unix seconds).
pub struct TlsCert {
    pub pem: String,
    pub not_before: i64,
    pub not_after: i64,
}

/// A path of a site and how requests under it are served.
/// Header lists are kept as the JSON text in which they are stored.
pub struct ProxyLocation {
    pub id: Option<u64>,
    pub path: String,
    pub proxy: bool,
    pub protocol: String,
    pub upstream: Vec<String>,
    pub connection_timeout: u32,
    pub read_timeout: u32,
    pub write_timeout: u32,
    pub idle_timeout: u32,
    pub sni: String,
    pub client_max_body_size: usize,
    pub rewrite: Option<String>,
    pub http_version: Option<String>,
    pub proxy_set_headers: Option<String>,
    pub proxy_add_headers: Option<String>,
    pub proxy_remove_headers: Option<String>,
    pub response_set_headers: Option<String>,
    pub response_add_headers: Option<String>,
    pub response_remove_headers: Option<String>,
    pub root_dir: Option<String>,
    pub auto_index: bool,
}

/// A site served by the gateways of one cluster.
pub struct Site {
    pub id: Option<u64>,
    pub cluster: String,
    pub name: String,
    pub alt_names: Vec<String>,
    pub auto_index: bool,
    pub root_dir: Option<String>,
    pub tls_on: bool,
    pub tls_enforce: bool,
    pub acme_on: bool,
    pub tls_cert: Option<TlsCert>,
    pub tls_cert_start_date: Option<String>,
    pub tls_cert_end_date: Option<String>,
    pub tls_private_key: Option<String>,
    pub rate_limit: isize,
    pub rate_limit_unit: u64,
    pub locations: Vec<ProxyLocation>,
}

/// Why a site cannot be stored or read back.
pub enum SiteError {
    /// The site has no location.
    LocationEmpty,
    /// A proxying location names no backend; the text is the location's path.
    BackendsEmpty(String),
    /// A stored backend has no host or no port.
    HostEmpty,
    /// A backend of a new location has a port that is not a `u16`; the text is the port.
    InvalidPort(String),
    ClusterNull,
    NameNull,
    IdNull,
    LocationIdNull,
    /// The site to change is not stored.
    ServerNotFound,
    /// The stored site has no id.
    ServerIdNotFound,
}

// ---------------------------------------------------------------------
// The check made before a site is added or modified
// ---------------------------------------------------------------------

/// A location that proxies but names no backend.
pub open spec fn lacks_backends(l: ProxyLocation) -> bool {
    l.proxy && l.upstream@.len() == 0
}

/// The message that the console answers for a location without backends.
pub open spec fn backends_empty_message(path: Seq<char>) -> Seq<char> {
    "Location '"@ + path + "' backends is empty."@
}

/// Why a text is not a `u16`, in the words of `ParseIntError`.
pub open spec fn port_error_message(p: Seq<char>) -> Seq<char> {
    let d = unsigned_digits(p);
    if p.len() == 0 {
        "cannot parse integer from empty string"@
    } else if !all_digits(d) {
        "invalid digit found in string"@
    } else {
        "number too large to fit in target type"@
    }
}

impl SiteError {
    /// The message that the console answers for this error.
    pub open spec fn message(self) -> Seq<char> {
        match self {
            SiteError::LocationEmpty => "Location is empty"@,
            SiteError::BackendsEmpty(path) => backends_empty_message(path@),
            SiteError::HostEmpty => "Host is empty"@,
            SiteError::InvalidPort(port) => port_error_message(port@),
            SiteError::ClusterNull => "Cluster is null"@,
            SiteError::NameNull => "Name is null"@,
            SiteError::IdNull => "Id is null"@,
            SiteError::LocationIdNull => "Location Id is null"@,
            SiteError::ServerNotFound => "Server not found."@,
            SiteError::ServerIdNotFound => "Server id not found."@,
        }
    }
}

fn all_digit_chars(s: &[char]) -> (r: bool)
    ensures
        r == all_digits(s@),
{
    let mut i: usize = 0;
    while i < s.len()
        invariant
            i <= s@.len(),
            forall|k: int| 0 <= k < i ==> crate::text::is_digit(#[trigger] s@[k]),
        decreases s@.len() - i,
    {
        if !('0' <= s[i] && s[i] <= '9') {
            return false;
        }
        i = i + 1;
    }
    true
}

/// The message for a port that is not a `u16`, as `ParseIntError` words it.
pub fn port_error_text(p: &str) -> (r: String)
    ensures
        r@ == port_error_message(p@),
{
    let cs = chars_of(p);
    if cs.len() == 0 {
        return "cannot parse integer from empty string".to_string();
    }
    let digits_ok = if cs.len() > 1 && cs[0] == '+' {
        let tail = vstd::slice::slice_subrange(cs.as_slice(), 1, cs.len());
        assert(tail@ =~= unsigned_digits(p@));
        all_digit_chars(tail)
    } else {
        assert(cs@ =~= unsigned_digits(p@));
        all_digit_chars(cs.as_slice())
    };
    if !digits_ok {
        "invalid digit found in string".to_string()
    } else {
        "number too large to fit in target type".to_string()
    }
}

impl SiteError {
    /// The message that the console answers for this error.
    pub fn message_text(&self) -> (r: String)
        ensures
            r@ == self.message(),
    {
        match self {
            SiteError::LocationEmpty => "Location is empty".to_string(),
            SiteError::BackendsEmpty(path) => {
                let head = crate::text::concat("Location '", path.as_str());
                crate::text::concat(head.as_str(), "' backends is empty.")
            }
            SiteError::HostEmpty => "Host is empty".to_string(),
            SiteError::InvalidPort(port) => port_error_text(port.as_str()),
            SiteError::ClusterNull => "Cluster is null".to_string(),
            SiteError::NameNull => "Name is null".to_string(),
            SiteError::IdNull => "Id is null".to_string(),
            SiteError::LocationIdNull => "Location Id is null".to_string(),
            SiteError::ServerNotFound => "Server not found.".to_string(),
            SiteError::ServerIdNotFound => "Server id not found.".to_string(),
        }
    }
}

/// Checks a site before it is stored: it must have a location, and every
/// proxying location must name a backend. The first offending location is reported.
pub fn check_site(site: &Site) -> (r: Result<(), SiteError>)
    ensures
        site.locations@.len() == 0 <==> r matches Err(SiteError::LocationEmpty),
        r is Ok <==> (site.locations@.len() > 0 && forall|i: int|
            0 <= i < site.locations@.len() ==> !lacks_backends(#[trigger] site.locations@[i])),
        r matches Err(SiteError::BackendsEmpty(path)) ==> exists|i: int|
            0 <= i < site.locations@.len() && lacks_backends(#[trigger] site.locations@[i])
                && path@ == site.locations@[i].path@
                && forall|j: int| 0 <= j < i ==> !lacks_backends(#[trigger] site.locations@[j]),
        r is Err ==> (r matches Err(SiteError::LocationEmpty) || r matches Err(SiteError::BackendsEmpty(_))),
{
    if site.locations.len() == 0 {
        return Err(SiteError::LocationEmpty);
    }
    let mut i: usize = 0;
    while i < site.locations.len()
        invariant
            i <= site.locations@.len(),
            forall|j: int| 0 <= j < i ==> !lacks_backends(#[trigger] site.locations@[j]),
        decreases site.locations@.len() - i,
    {
        let l = &site.locations[i];
        if l.proxy && l.upstream.len() == 0 {
            let path = string_of(chars_of(l.path.as_str()).as_slice());
            assert(lacks_backends(site.locations@[i as int]));
            return Err(SiteError::BackendsEmpty(path));
        }
        i = i + 1;
    }
    Ok(())
}

// ---------------------------------------------------------------------
// Backends named by a location
// ---------------------------------------------------------------------

/// The backend that an upstream entry `host:port` names: the text before the
/// first `:` and the text after it, up to a second `:`, read as a port. Entries
/// without `:`, or whose port is not a `u16`, name no backend.
pub open spec fn upstream_backend(s: Seq<char>) -> Option<(Seq<char>, u16)> {
    if !s.contains(':') {
        None
    } else {
        let parts = split_spec(s, ':');
        match parse_unsigned(parts[1], u16::MAX as nat) {
            Some(v) => Some((parts[0], v as u16)),
            None => None,
        }
    }
}

pub open spec fn pair_view(p: (String, u16)) -> (Seq<char>, u16) {
    (p.0@, p.1)
}

pub open spec fn pairs_view(v: Seq<(String, u16)>) -> Seq<(Seq<char>, u16)> {
    Seq::new(v.len(), |i: int| pair_view(v[i]))
}

/// No backend occurs twice.
pub open spec fn distinct_pairs(v: Seq<(Seq<char>, u16)>) -> bool {
    forall|i: int, j: int| 0 <= i < j < v.len() ==> v[i] != v[j]
}

/// The upstream entries that name the backend `p`.
pub open spec fn named_by_upstream(upstream: Seq<String>, p: (Seq<char>, u16)) -> bool {
    exists|i: int| 0 <= i < upstream.len() && upstream_backend(#[trigger] upstream[i]@) == Some(p)
}

proof fn lemma_split_has_two(s: Seq<char>)
    requires
        s.contains(':'),
    ensures
        split_spec(s, ':').len() >= 2,
{
    crate::text::lemma_first_index_bounds(s, ':');
    let i = crate::text::first_index_of(s, ':');
    let k = choose|k: int| 0 <= k < s.len() && s[k] == ':';
    assert(i <= k);
    assert(i < s.len());
    let rest = s.skip(i + 1);
    assert(split_spec(rest, ':').len() >= 1);
    assert(split_spec(s, ':') == seq![s.take(i)] + split_spec(rest, ':'));
}

fn contains_pair(v: &Vec<(String, u16)>, host: &String, port: u16) -> (r: bool)
    ensures
        r == pairs_view(v@).contains((host@, port)),
{
    let mut i: usize = 0;
    while i < v.len()
        invariant
            i <= v@.len(),
            forall|j: int| 0 <= j < i ==> pair_view(v@[j]) != (host@, port),
        decreases v@.len() - i,
    {
        if v[i].1 == port && v[i].0 == *host {
            assert(pairs_view(v@)[i as int] == (host@, port));
            return true;
        }
        i = i + 1;
    }
    assert forall|j: int| 0 <= j < pairs_view(v@).len() implies pairs_view(v@)[j] != (host@, port) by {
        assert(pairs_view(v@)[j] == pair_view(v@[j]));
    }
    false
}

/// The backend named by one upstream entry.
pub fn parse_upstream(s: &str) -> (r: Option<(String, u16)>)
    ensures
        r matches Some(p) ==> upstream_backend(s@) == Some(pair_view(p)),
        r is None ==> upstream_backend(s@) is None,
{
    let cs = chars_of(s);
    if !contains_char(cs.as_slice(), ':') {
        return None;
    }
    let parts = split_chars(cs.as_slice(), ':');
    proof {
        lemma_split_has_two(s@);
        assert(vec_views(parts@)[1] == parts@[1]@);
        assert(vec_views(parts@)[0] == parts@[0]@);
    }
    match parse_u16(parts[1].as_slice()) {
        Some(port) => Some((string_of(parts[0].as_slice()), port)),
        None => None,
    }
}

/// The backends that the first `n` upstream entries name, each once, in the
/// order in which they are first named.
pub open spec fn first_backends(ups: Seq<String>, n: nat) -> Seq<(Seq<char>, u16)>
    decreases n,
{
    if n == 0 {
        Seq::empty()
    } else {
        let prev = first_backends(ups, (n - 1) as nat);
        match upstream_backend(ups[n - 1]@) {
            Some(b) => if prev.contains(b) { prev } else { prev.push(b) },
            None => prev,
        }
    }
}

/// The distinct backends that the upstream entries name (the set that is stored for a location).
pub fn parse_upstreams(upstream: &Vec<String>) -> (r: Vec<(String, u16)>)
    ensures
        pairs_view(r@) == first_backends(upstream@, upstream@.len()),
        distinct_pairs(pairs_view(r@)),
        forall|p: (Seq<char>, u16)| pairs_view(r@).contains(p) <==> named_by_upstream(upstream@, p),
{
    let mut r: Vec<(String, u16)> = Vec::new();
    let mut i: usize = 0;
    while i < upstream.len()
        invariant
            i <= upstream@.len(),
            pairs_view(r@) == first_backends(upstream@, i as nat),
            distinct_pairs(pairs_view(r@)),
            forall|p: (Seq<char>, u16)| pairs_view(r@).contains(p) <==> named_by_upstream(upstream@.take(i as int), p),
        decreases upstream@.len() - i,
    {
        let parsed = parse_upstream(upstream[i].as_str());
        let ghost before = pairs_view(r@);
        match parsed {
            Some(pair) => {
                if !contains_pair(&r, &pair.0, pair.1) {
                    r.push(pair);
                    assert(pairs_view(r@) =~= before.push(pair_view(pair)));
                }
            }
            None => {}
        }
        assert forall|p: (Seq<char>, u16)| pairs_view(r@).contains(p) <==> named_by_upstream(upstream@.take(i + 1), p) by {
            let t = upstream@.take(i + 1);
            let u = upstream@.take(i as int);
            assert(t[i as int] == upstream@[i as int]);
            if pairs_view(r@).contains(p) {
                let k = choose|k: int| 0 <= k < pairs_view(r@).len() && pairs_view(r@)[k] == p;
                if k < before.len() {
                    assert(before[k] == p);
                    assert(before.contains(p));
                    let m = choose|m: int| 0 <= m < u.len() && upstream_backend(#[trigger] u[m]@) == Some(p);
                    assert(t[m] == u[m]);
                } else {
                    assert(upstream_backend(t[i as int]@) == Some(p));
                }
                assert(named_by_upstream(t, p));
            }
            if named_by_upstream(t, p) {
                let k = choose|k: int| 0 <= k < t.len() && upstream_backend(#[trigger] t[k]@) == Some(p);
                if k < i {
                    assert(u[k] == t[k]);
                    assert(named_by_upstream(u, p));
                    assert(before.contains(p));
                    let m = choose|m: int| 0 <= m < before.len() && before[m] == p;
                    assert(pairs_view(r@)[m] == p);
                } else {
                    assert(parsed is Some);
                    if before.contains(p) {
                        let m = choose|m: int| 0 <= m < before.len() && before[m] == p;
                        assert(pairs_view(r@)[m] == p);
                    } else {
                        assert(pairs_view(r@)[before.len() as int] == p);
                    }
                }
            }
        }
        i = i + 1;
    }
    assert(upstream@.take(upstream@.len() as int) =~= upstream@);
    r
}

// ---------------------------------------------------------------------
// Bringing the stored backends of a location in line with its upstream
// ---------------------------------------------------------------------

/// A stored backend has both a host and a port.
pub open spec fn backend_complete(b: TbBackend) -> bool {
    b.host is Some && b.port is Some
}

/// The backend that a stored row names; the port is read as a `u16`.
pub open spec fn backend_key(b: TbBackend) -> (Seq<char>, u16) {
    (b.host->0@, b.port->0 as u16)
}

/// Row `i` stays: its backend is wanted and no earlier row names the same backend.
pub open spec fn keeps(rows: Seq<TbBackend>, desired: Seq<(Seq<char>, u16)>, i: int) -> bool {
    &&& desired.contains(backend_key(rows[i]))
    &&& forall|j: int| 0 <= j < i ==> backend_key(#[trigger] rows[j]) != backend_key(rows[i])
}

/// The ids of the first `n` rows that do not stay, in row order.
pub open spec fn deleted_ids(rows: Seq<TbBackend>, desired: Seq<(Seq<char>, u16)>, n: nat) -> Seq<i64>
    decreases n,
{
    if n == 0 {
        Seq::empty()
    } else {
        let prev = deleted_ids(rows, desired, (n - 1) as nat);
        if !keeps(rows, desired, n - 1) && rows[n - 1].id is Some {
            prev.push(rows[n - 1].id->0)
        } else {
            prev
        }
    }
}

/// Some stored row names the backend `k`.
pub open spec fn stored_backend(rows: Seq<TbBackend>, k: (Seq<char>, u16)) -> bool {
    exists|i: int| 0 <= i < rows.len() && backend_key(#[trigger] rows[i]) == k
}

/// The first `n` wanted backends that no stored row names, in order.
pub open spec fn added_backends(
    desired: Seq<(Seq<char>, u16)>,
    rows: Seq<TbBackend>,
    n: nat,
) -> Seq<(Seq<char>, u16)>
    decreases n,
{
    if n == 0 {
        Seq::empty()
    } else {
        let prev = added_backends(desired, rows, (n - 1) as nat);
        if !stored_backend(rows, desired[n - 1]) {
            prev.push(desired[n - 1])
        } else {
            prev
        }
    }
}

/// The stored backends to delete (by id) and the backends to add for one location.
pub struct BackendPlan {
    pub delete_ids: Vec<i64>,
    pub add: Vec<(String, u16)>,
}

fn row_key_eq(b: &TbBackend, host: &String, port: u16) -> (r: bool)
    requires
        backend_complete(*b),
    ensures
        r == (backend_key(*b) == (host@, port)),
{
    let bh = b.host.as_ref().unwrap();
    let bp: u16 = *b.port.as_ref().unwrap() as u16;
    bp == port && *bh == *host
}

/// Plans how the stored backends of a location become the wanted ones: a row
/// stays when its backend is wanted and no earlier row names it; every other
/// row is deleted; every wanted backend that no row names is added. A row
/// without host or port stops the plan.
pub fn plan_backend_changes(desired: &Vec<(String, u16)>, stored: &Vec<TbBackend>) -> (r: Result<BackendPlan, SiteError>)
    ensures
        r is Err <==> exists|i: int| 0 <= i < stored@.len() && !backend_complete(#[trigger] stored@[i]),
        r is Err ==> r matches Err(SiteError::HostEmpty),
        r matches Ok(plan) ==> {
            &&& plan.delete_ids@ == deleted_ids(stored@, pairs_view(desired@), stored@.len())
            &&& pairs_view(plan.add@) == added_backends(pairs_view(desired@), stored@, desired@.len())
        },
{
    let mut i: usize = 0;
    while i < stored.len()
        invariant
            i <= stored@.len(),
            forall|j: int| 0 <= j < i ==> backend_complete(#[trigger] stored@[j]),
        decreases stored@.len() - i,
    {
        if stored[i].host.is_none() || stored[i].port.is_none() {
            assert(!backend_complete(stored@[i as int]));
            return Err(SiteError::HostEmpty);
        }
        i = i + 1;
    }
    let ghost want = pairs_view(desired@);
    let mut delete_ids: Vec<i64> = Vec::new();
    let mut i: usize = 0;
    while i < stored.len()
        invariant
            i <= stored@.len(),
            want == pairs_view(desired@),
            forall|j: int| 0 <= j < stored@.len() ==> backend_complete(#[trigger] stored@[j]),
            delete_ids@ == deleted_ids(stored@, want, i as nat),
        decreases stored@.len() - i,
    {
        let b = &stored[i];
        assert(backend_complete(stored@[i as int]));
        let host = b.host.as_ref().unwrap();
        let port: u16 = *b.port.as_ref().unwrap() as u16;
        let wanted = contains_pair(desired, host, port);
        let mut seen = false;
        let mut j: usize = 0;
        while j < i
            invariant
                j <= i < stored@.len(),
                forall|m: int| 0 <= m < stored@.len() ==> backend_complete(#[trigger] stored@[m]),
                (host@, port) == backend_key(stored@[i as int]),
                seen == exists|m: int| 0 <= m < j && backend_key(#[trigger] stored@[m]) == backend_key(stored@[i as int]),
            decreases i - j,
        {
            if row_key_eq(&stored[j], host, port) {
                seen = true;
            }
            j = j + 1;
        }
        let stays = wanted && !seen;
        assert(stays == keeps(stored@, want, i as int));
        if !stays && b.id.is_some() {
            delete_ids.push(*b.id.as_ref().unwrap());
        }
        i = i + 1;
    }
    let mut add: Vec<(String, u16)> = Vec::new();
    let mut k: usize = 0;
    while k < desired.len()
        invariant
            k <= desired@.len(),
            want == pairs_view(desired@),
            forall|m: int| 0 <= m < stored@.len() ==> backend_complete(#[trigger] stored@[m]),
            pairs_view(add@) == added_backends(want, stored@, k as nat),
        decreases desired@.len() - k,
    {
        let host = &desired[k].0;
        let port = desired[k].1;
        let mut found = false;
        let mut j: usize = 0;
        while j < stored.len()
            invariant
                j <= stored@.len(),
                k < desired@.len(),
                want == pairs_view(desired@),
                forall|m: int| 0 <= m < stored@.len() ==> backend_complete(#[trigger] stored@[m]),
                (host@, port) == want[k as int],
                found == exists|m: int| 0 <= m < j && backend_key(#[trigger] stored@[m]) == want[k as int],
            decreases stored@.len() - j,
        {
            if row_key_eq(&stored[j], host, port) {
                found = true;
            }
            j = j + 1;
        }
        assert(found == stored_backend(stored@, want[k as int]));
        let ghost before = pairs_view(add@);
        if !found {
            add.push((string_of(chars_of(host.as_str()).as_slice()), port));
            assert(pairs_view(add@) =~= before.push(want[k as int]));
        }
        k = k + 1;
    }
    Ok(BackendPlan { delete_ids, add })
}

} // verus!

verus! {

// ---------------------------------------------------------------------
// What a backend plan leaves behind
// ---------------------------------------------------------------------

proof fn lemma_added_backends_members(desired: Seq<(Seq<char>, u16)>, rows: Seq<TbBackend>, n: nat)
    requires
        n <= desired.len(),
    ensures
        forall|p: (Seq<char>, u16)| #[trigger] added_backends(desired, rows, n).contains(p) <==>
            (exists|k: int| 0 <= k < n && desired[k] == p) && !stored_backend(rows, p),
        distinct_pairs(desired) ==> distinct_pairs(added_backends(desired, rows, n)),
    decreases n,
{
    if n > 0 {
        lemma_added_backends_members(desired, rows, (n - 1) as nat);
        let prev = added_backends(desired, rows, (n - 1) as nat);
        let cur = added_backends(desired, rows, n);
        let d = desired[n - 1];
        assert forall|p: (Seq<char>, u16)| cur.contains(p) <==>
            (exists|k: int| 0 <= k < n && desired[k] == p) && !stored_backend(rows, p) by {
            if cur.contains(p) {
                let m = choose|m: int| 0 <= m < cur.len() && cur[m] == p;
                if m < prev.len() {
                    assert(prev[m] == p);
                    assert(prev.contains(p));
                } else {
                    assert(p == d);
                }
            }
            if (exists|k: int| 0 <= k < n && desired[k] == p) && !stored_backend(rows, p) {
                let k = choose|k: int| 0 <= k < n && desired[k] == p;
                if k < n - 1 {
                    assert(prev.contains(p));
                    let m = choose|m: int| 0 <= m < prev.len() && prev[m] == p;
                    assert(cur[m] == p);
                } else {
                    assert(cur[cur.len() - 1] == p);
                }
            }
        }
        if distinct_pairs(desired) && !stored_backend(rows, d) {
            assert(!prev.contains(d)) by {
                if prev.contains(d) {
                    let k = choose|k: int| 0 <= k < n - 1 && desired[k] == d;
                    assert(desired[k] != desired[n - 1]);
                }
            }
            assert forall|i: int, j: int| 0 <= i < j < cur.len() implies cur[i] != cur[j] by {
                if j == cur.len() - 1 {
                    assert(cur[i] == prev[i]);
                    assert(prev.contains(prev[i]));
                } else {
                    assert(cur[i] == prev[i] && cur[j] == prev[j]);
                }
            }
        }
    }
}

proof fn lemma_deleted_ids_members(rows: Seq<TbBackend>, desired: Seq<(Seq<char>, u16)>, n: nat)
    requires
        n <= rows.len(),
    ensures
        forall|x: i64| #[trigger] deleted_ids(rows, desired, n).contains(x) <==>
            exists|i: int| 0 <= i < n && !keeps(rows, desired, i) && rows[i].id == Some(x),
    decreases n,
{
    if n > 0 {
        lemma_deleted_ids_members(rows, desired, (n - 1) as nat);
        let prev = deleted_ids(rows, desired, (n - 1) as nat);
        let cur = deleted_ids(rows, desired, n);
        assert forall|x: i64| cur.contains(x) <==>
            exists|i: int| 0 <= i < n && !keeps(rows, desired, i) && rows[i].id == Some(x) by {
            if cur.contains(x) {
                let m = choose|m: int| 0 <= m < cur.len() && cur[m] == x;
                if m < prev.len() {
                    assert(prev[m] == x);
                    assert(prev.contains(x));
                } else {
                    assert(!keeps(rows, desired, n - 1) && rows[n - 1].id == Some(x));
                }
            }
            if exists|i: int| 0 <= i < n && !keeps(rows, desired, i) && rows[i].id == Some(x) {
                let i = choose|i: int| 0 <= i < n && !keeps(rows, desired, i) && rows[i].id == Some(x);
                if i < n - 1 {
                    assert(prev.contains(x));
                    let m = choose|m: int| 0 <= m < prev.len() && prev[m] == x;
                    assert(cur[m] == x);
                } else {
                    assert(cur[cur.len() - 1] == x);
                }
            }
        }
    }
}

proof fn lemma_first_row_with_key(rows: Seq<TbBackend>, p: (Seq<char>, u16), i: int)
    requires
        0 <= i < rows.len(),
        backend_key(rows[i]) == p,
    ensures
        exists|m: int| 0 <= m <= i && backend_key(rows[m]) == p
            && forall|j: int| 0 <= j < m ==> backend_key(#[trigger] rows[j]) != p,
    decreases i,
{
    if exists|j: int| 0 <= j < i && backend_key(#[trigger] rows[j]) == p {
        let j = choose|j: int| 0 <= j < i && backend_key(#[trigger] rows[j]) == p;
        lemma_first_row_with_key(rows, p, j);
    } else {
        assert(forall|j: int| 0 <= j < i ==> backend_key(#[trigger] rows[j]) != p);
    }
}

/// Carrying out a backend plan leaves each wanted backend exactly once: a
/// backend is wanted exactly when a row that stays names it or the plan adds
/// it; rows that stay name different backends; what is added is named by no
/// stored row and is added once.
pub proof fn lemma_backend_plan_reaches_desired(desired: Seq<(Seq<char>, u16)>, rows: Seq<TbBackend>)
    requires
        distinct_pairs(desired),
    ensures
        forall|p: (Seq<char>, u16)| desired.contains(p) <==> (
            (exists|i: int| 0 <= i < rows.len() && keeps(rows, desired, i) && backend_key(rows[i]) == p)
            || added_backends(desired, rows, desired.len()).contains(p)),
        forall|i: int, j: int| 0 <= i < j < rows.len() && keeps(rows, desired, i) && keeps(rows, desired, j)
            ==> backend_key(rows[i]) != backend_key(rows[j]),
        forall|p: (Seq<char>, u16)| added_backends(desired, rows, desired.len()).contains(p)
            ==> !stored_backend(rows, p),
        distinct_pairs(added_backends(desired, rows, desired.len())),
{
    let added = added_backends(desired, rows, desired.len());
    lemma_added_backends_members(desired, rows, desired.len());
    assert forall|p: (Seq<char>, u16)| desired.contains(p) <==> (
        (exists|i: int| 0 <= i < rows.len() && keeps(rows, desired, i) && backend_key(rows[i]) == p)
        || added.contains(p)) by {
        if desired.contains(p) {
            let k = choose|k: int| 0 <= k < desired.len() && desired[k] == p;
            if stored_backend(rows, p) {
                let i = choose|i: int| 0 <= i < rows.len() && backend_key(#[trigger] rows[i]) == p;
                lemma_first_row_with_key(rows, p, i);
                let m = choose|m: int| 0 <= m <= i && backend_key(rows[m]) == p
                    && forall|j: int| 0 <= j < m ==> backend_key(#[trigger] rows[j]) != p;
                assert(keeps(rows, desired, m));
            } else {
                assert(added.contains(p));
            }
        }
        if added.contains(p) {
            assert((exists|k: int| 0 <= k < desired.len() && desired[k] == p) && !stored_backend(rows, p));
            let k = choose|k: int| 0 <= k < desired.len() && desired[k] == p;
            assert(desired[k] == p);
        }
    }
    assert forall|i: int, j: int| 0 <= i < j < rows.len() && keeps(rows, desired, i) && keeps(rows, desired, j)
        implies backend_key(rows[i]) != backend_key(rows[j]) by {
        assert(backend_key(rows[i]) != backend_key(rows[j]));
    }
}

/// A row is deleted exactly when it does not stay (rows carry distinct ids).
pub proof fn lemma_backend_plan_deletes_rows_not_kept(desired: Seq<(Seq<char>, u16)>, rows: Seq<TbBackend>)
    requires
        forall|i: int| 0 <= i < rows.len() ==> (#[trigger] rows[i]).id is Some,
        forall|i: int, j: int| 0 <= i < j < rows.len() ==> rows[i].id != rows[j].id,
    ensures
        forall|i: int| 0 <= i < rows.len() ==>
            (deleted_ids(rows, desired, rows.len()).contains((#[trigger] rows[i]).id->0) <==> !keeps(rows, desired, i)),
{
    lemma_deleted_ids_members(rows, desired, rows.len());
    assert forall|i: int| 0 <= i < rows.len() implies
        (deleted_ids(rows, desired, rows.len()).contains((#[trigger] rows[i]).id->0) <==> !keeps(rows, desired, i)) by {
        if deleted_ids(rows, desired, rows.len()).contains(rows[i].id->0) {
            let m = choose|m: int| 0 <= m < rows.len() && !keeps(rows, desired, m) && rows[m].id == Some(rows[i].id->0);
            if m != i {
                if m < i {
                    assert(rows[m].id != rows[i].id);
                } else {
                    assert(rows[i].id != rows[m].id);
                }
            }
        }
    }
}

} // verus!

verus! {

// ---------------------------------------------------------------------
// Bringing the stored locations of a site in line with the changed site
// ---------------------------------------------------------------------

/// The index of the last stored row among the first `n` whose id is `id`, or -1.
pub open spec fn last_row_with_id(rows: Seq<TbLocation>, id: i64, n: nat) -> int
    decreases n,
{
    if n == 0 {
        -1
    } else if rows[n - 1].id == Some(id) {
        n - 1
    } else {
        last_row_with_id(rows, id, (n - 1) as nat)
    }
}

/// The stored row that a location of the site refers to by its id, or -1.
pub open spec fn referenced_row(rows: Seq<TbLocation>, l: ProxyLocation) -> int {
    match l.id {
        Some(id) => last_row_with_id(rows, id as i64, rows.len()),
        None => -1,
    }
}

/// The pairs (location of the site, stored row) among the first `n` locations
/// that update a stored row, in the order of the site's locations.
pub open spec fn planned_updates(locs: Seq<ProxyLocation>, rows: Seq<TbLocation>, n: nat) -> Seq<(int, int)>
    decreases n,
{
    if n == 0 {
        Seq::empty()
    } else {
        let prev = planned_updates(locs, rows, (n - 1) as nat);
        if referenced_row(rows, locs[n - 1]) >= 0 {
            prev.push((n - 1, referenced_row(rows, locs[n - 1])))
        } else {
            prev
        }
    }
}

/// The locations among the first `n` that have no id: they are new.
pub open spec fn planned_additions(locs: Seq<ProxyLocation>, n: nat) -> Seq<int>
    decreases n,
{
    if n == 0 {
        Seq::empty()
    } else {
        let prev = planned_additions(locs, (n - 1) as nat);
        if locs[n - 1].id is None {
            prev.push(n - 1)
        } else {
            prev
        }
    }
}

/// The first `n` locations: those without an id are added, each once, in order.
proof fn lemma_additions_upto(locs: Seq<ProxyLocation>, n: nat)
    requires
        n <= locs.len(),
    ensures
        forall|i: int| 0 <= i < n ==> (locs[i].id is None <==> planned_additions(locs, n).contains(i)),
        forall|k: int| 0 <= k < planned_additions(locs, n).len() ==>
            0 <= #[trigger] planned_additions(locs, n)[k] < n,
        forall|a: int, b: int| 0 <= a < b < planned_additions(locs, n).len() ==>
            planned_additions(locs, n)[a] < planned_additions(locs, n)[b],
    decreases n,
{
    if n > 0 {
        let m = (n - 1) as nat;
        lemma_additions_upto(locs, m);
        let pa = planned_additions(locs, n);
        let pa0 = planned_additions(locs, m);
        assert forall|k: int| 0 <= k < pa.len() implies 0 <= #[trigger] pa[k] < n by {
            if k < pa0.len() {
                assert(pa[k] == pa0[k]);
            }
        }
        assert forall|i: int| 0 <= i < n implies (locs[i].id is None <==> pa.contains(i)) by {
            if i < m {
                if pa0.contains(i) {
                    let k = choose|k: int| 0 <= k < pa0.len() && pa0[k] == i;
                    assert(pa[k] == i);
                }
                if pa.contains(i) {
                    let k = choose|k: int| 0 <= k < pa.len() && pa[k] == i;
                    if k < pa0.len() {
                        assert(pa0[k] == i);
                    }
                }
            } else {
                if locs[i].id is None {
                    assert(pa[pa.len() - 1] == i);
                } else {
                    if pa.contains(i) {
                        let k = choose|k: int| 0 <= k < pa.len() && pa[k] == i;
                        assert(pa0[k] == i);
                    }
                }
            }
        }
    }
}

/// Planning adds exactly the locations of the site that carry no id, each
/// once and in the site's order: every new location is stored.
pub proof fn lemma_every_new_location_is_added(locs: Seq<ProxyLocation>)
    ensures
        forall|i: int| 0 <= i < locs.len() ==>
            (locs[i].id is None <==> planned_additions(locs, locs.len()).contains(i)),
        forall|k: int| 0 <= k < planned_additions(locs, locs.len()).len() ==>
            0 <= #[trigger] planned_additions(locs, locs.len())[k] < locs.len()
            && locs[planned_additions(locs, locs.len())[k]].id is None,
        forall|a: int, b: int| 0 <= a < b < planned_additions(locs, locs.len()).len() ==>
            planned_additions(locs, locs.len())[a] < planned_additions(locs, locs.len())[b],
{
    lemma_additions_upto(locs, locs.len());
    let pa = planned_additions(locs, locs.len());
    assert forall|k: int| 0 <= k < pa.len() implies 0 <= #[trigger] pa[k] < locs.len()
        && locs[pa[k]].id is None by {
        assert(pa.contains(pa[k]));
    }
}

/// Some location of the site carries the stored id `id`.
pub open spec fn site_names_id(locs: Seq<ProxyLocation>, id: i64) -> bool {
    exists|i: int| 0 <= i < locs.len() && carries_id(#[trigger] locs[i], id)
}

/// The location carries the stored id `id`.
pub open spec fn carries_id(l: ProxyLocation, id: i64) -> bool {
    l.id matches Some(x) && x as i64 == id
}

/// Some stored row has the id `id`.
pub open spec fn stored_has_id(rows: Seq<TbLocation>, id: i64) -> bool {
    exists|i: int| 0 <= i < rows.len() && (#[trigger] rows[i]).id == Some(id)
}

pub open spec fn index_pairs_view(v: Seq<(usize, usize)>) -> Seq<(int, int)> {
    Seq::new(v.len(), |i: int| (v[i].0 as int, v[i].1 as int))
}

pub open spec fn indices_view(v: Seq<usize>) -> Seq<int> {
    Seq::new(v.len(), |i: int| v[i] as int)
}

pub open spec fn distinct_ids(v: Seq<i64>) -> bool {
    forall|i: int, j: int| 0 <= i < j < v.len() ==> v[i] != v[j]
}

/// What happens to the stored locations of a site: pairs (location of the
/// site, stored row) to update, locations of the site to add, and stored
/// ids to delete.
pub struct LocationPlan {
    pub update: Vec<(usize, usize)>,
    pub add: Vec<usize>,
    pub delete_ids: Vec<i64>,
}

pub proof fn lemma_last_row_with_id(rows: Seq<TbLocation>, id: i64, n: nat)
    requires
        n <= rows.len(),
    ensures
        -1 <= last_row_with_id(rows, id, n) < n,
        last_row_with_id(rows, id, n) >= 0 ==> rows[last_row_with_id(rows, id, n)].id == Some(id),
        last_row_with_id(rows, id, n) < 0 <==> forall|i: int| 0 <= i < n ==> (#[trigger] rows[i]).id != Some(id),
    decreases n,
{
    if n > 0 {
        lemma_last_row_with_id(rows, id, (n - 1) as nat);
    }
}

fn find_last_row(rows: &Vec<TbLocation>, id: i64) -> (r: Option<usize>)
    ensures
        r matches Some(k) ==> k as int == last_row_with_id(rows@, id, rows@.len()),
        r is None ==> last_row_with_id(rows@, id, rows@.len()) < 0,
{
    let mut found: Option<usize> = None;
    let mut j: usize = 0;
    while j < rows.len()
        invariant
            j <= rows@.len(),
            found matches Some(k) ==> k as int == last_row_with_id(rows@, id, j as nat),
            found is None ==> last_row_with_id(rows@, id, j as nat) < 0,
        decreases rows@.len() - j,
    {
        if rows[j].id == Some(id) {
            found = Some(j);
        }
        j = j + 1;
    }
    found
}

fn names_id(locs: &Vec<ProxyLocation>, id: i64) -> (r: bool)
    ensures
        r == site_names_id(locs@, id),
{
    let mut i: usize = 0;
    while i < locs.len()
        invariant
            i <= locs@.len(),
            forall|j: int| 0 <= j < i ==> !carries_id(#[trigger] locs@[j], id),
        decreases locs@.len() - i,
    {
        match locs[i].id {
            Some(x) => {
                if x as i64 == id {
                    return true;
                }
            }
            None => {}
        }
        i = i + 1;
    }
    false
}

fn contains_id(v: &Vec<i64>, id: i64) -> (r: bool)
    ensures
        r == v@.contains(id),
{
    let mut i: usize = 0;
    while i < v.len()
        invariant
            i <= v@.len(),
            forall|j: int| 0 <= j < i ==> v@[j] != id,
        decreases v@.len() - i,
    {
        if v[i] == id {
            return true;
        }
        i = i + 1;
    }
    false
}

/// Plans how the stored locations of a site follow the changed site: a
/// location whose id names a stored row updates that row; a location
/// without id is added; a location whose id names no stored row is passed
/// over; every stored id that no location names is deleted, once.
pub fn plan_location_changes(locs: &Vec<ProxyLocation>, rows: &Vec<TbLocation>) -> (r: LocationPlan)
    ensures
        index_pairs_view(r.update@) == planned_updates(locs@, rows@, locs@.len()),
        indices_view(r.add@) == planned_additions(locs@, locs@.len()),
        forall|i: int| 0 <= i < locs@.len() ==> (locs@[i].id is None <==> r.add@.contains(i as usize)),
        forall|a: int, b: int| 0 <= a < b < r.add@.len() ==> r.add@[a] < r.add@[b],
        distinct_ids(r.delete_ids@),
        forall|id: i64| r.delete_ids@.contains(id) <==> (stored_has_id(rows@, id) && !site_names_id(locs@, id)),
{
    let mut update: Vec<(usize, usize)> = Vec::new();
    let mut add: Vec<usize> = Vec::new();
    let mut i: usize = 0;
    while i < locs.len()
        invariant
            i <= locs@.len(),
            index_pairs_view(update@) == planned_updates(locs@, rows@, i as nat),
            indices_view(add@) == planned_additions(locs@, i as nat),
        decreases locs@.len() - i,
    {
        let ghost up = index_pairs_view(update@);
        let ghost ad = indices_view(add@);
        match locs[i].id {
            Some(id) => {
                match find_last_row(rows, id as i64) {
                    Some(k) => {
                        update.push((i, k));
                        assert(index_pairs_view(update@) =~= up.push((i as int, k as int)));
                    }
                    None => {}
                }
            }
            None => {
                add.push(i);
                assert(indices_view(add@) =~= ad.push(i as int));
            }
        }
        i = i + 1;
    }
    let mut delete_ids: Vec<i64> = Vec::new();
    let mut j: usize = 0;
    while j < rows.len()
        invariant
            j <= rows@.len(),
            distinct_ids(delete_ids@),
            forall|id: i64| delete_ids@.contains(id) <==>
                ((exists|m: int| 0 <= m < j && (#[trigger] rows@[m]).id == Some(id)) && !site_names_id(locs@, id)),
        decreases rows@.len() - j,
    {
        let ghost before = delete_ids@;
        match rows[j].id {
            Some(id) => {
                if !names_id(locs, id) && !contains_id(&delete_ids, id) {
                    delete_ids.push(id);
                }
            }
            None => {}
        }
        assert forall|id: i64| delete_ids@.contains(id) <==>
            ((exists|m: int| 0 <= m < j + 1 && (#[trigger] rows@[m]).id == Some(id)) && !site_names_id(locs@, id)) by {
            if delete_ids@.contains(id) {
                let q = choose|q: int| 0 <= q < delete_ids@.len() && delete_ids@[q] == id;
                if q < before.len() {
                    assert(before[q] == id);
                    assert(before.contains(id));
                } else {
                    assert(rows@[j as int].id == Some(id));
                }
            }
            if (exists|m: int| 0 <= m < j + 1 && (#[trigger] rows@[m]).id == Some(id)) && !site_names_id(locs@, id) {
                let m = choose|m: int| 0 <= m < j + 1 && (#[trigger] rows@[m]).id == Some(id);
                if m < j {
                    assert(before.contains(id));
                    let q = choose|q: int| 0 <= q < before.len() && before[q] == id;
                    assert(delete_ids@[q] == id);
                } else if before.contains(id) {
                    let q = choose|q: int| 0 <= q < before.len() && before[q] == id;
                    assert(delete_ids@[q] == id);
                } else {
                    assert(delete_ids@[delete_ids@.len() - 1] == id);
                }
            }
        }
        j = j + 1;
    }
    proof {
        lemma_every_new_location_is_added(locs@);
        let pa = planned_additions(locs@, locs@.len());
        assert forall|i: int| 0 <= i < locs@.len() implies (locs@[i].id is None <==> add@.contains(i as usize)) by {
            if pa.contains(i) {
                let k = choose|k: int| 0 <= k < pa.len() && pa[k] == i;
                assert(add@[k] as int == pa[k]);
            }
            if add@.contains(i as usize) {
                let k = choose|k: int| 0 <= k < add@.len() && add@[k] == i as usize;
                assert(pa[k] == add@[k] as int);
            }
        }
        assert forall|a: int, b: int| 0 <= a < b < add@.len() implies add@[a] < add@[b] by {
            assert(pa[a] == add@[a] as int && pa[b] == add@[b] as int);
        }
    }
    LocationPlan { update, add, delete_ids }
}

} // verus!

verus! {

/// The updates among the first `n` locations: each names a location and the
/// stored row it refers to, and every location that refers to a row is named.
pub proof fn lemma_planned_updates_members(locs: Seq<ProxyLocation>, rows: Seq<TbLocation>, n: nat)
    requires
        n <= locs.len(),
    ensures
        forall|k: int| 0 <= k < planned_updates(locs, rows, n).len() ==> {
            let e = #[trigger] planned_updates(locs, rows, n)[k];
            &&& 0 <= e.0 < n
            &&& e.1 == referenced_row(rows, locs[e.0])
            &&& e.1 >= 0
        },
        forall|a: int| 0 <= a < n && referenced_row(rows, #[trigger] locs[a]) >= 0 ==>
            exists|k: int| 0 <= k < planned_updates(locs, rows, n).len() && planned_updates(locs, rows, n)[k].0 == a,
    decreases n,
{
    if n > 0 {
        lemma_planned_updates_members(locs, rows, (n - 1) as nat);
        let prev = planned_updates(locs, rows, (n - 1) as nat);
        let cur = planned_updates(locs, rows, n);
        assert forall|a: int| 0 <= a < n && referenced_row(rows, #[trigger] locs[a]) >= 0 implies
            exists|k: int| 0 <= k < cur.len() && cur[k].0 == a by {
            if a < n - 1 {
                let k = choose|k: int| 0 <= k < prev.len() && prev[k].0 == a;
                assert(cur[k] == prev[k]);
            } else {
                assert(cur[cur.len() - 1].0 == a);
            }
        }
        assert forall|k: int| 0 <= k < cur.len() implies {
            let e = #[trigger] cur[k];
            &&& 0 <= e.0 < n
            &&& e.1 == referenced_row(rows, locs[e.0])
            &&& e.1 >= 0
        } by {
            if k < prev.len() {
                assert(cur[k] == prev[k]);
            }
        }
    }
}

/// Every stored location is accounted for by the plan: it is updated by a
/// location of the site exactly when some location carries its id, and
/// deleted exactly when none does.
pub proof fn lemma_location_plan_covers_stored(locs: Seq<ProxyLocation>, rows: Seq<TbLocation>, id: i64)
    requires
        stored_has_id(rows, id),
    ensures
        site_names_id(locs, id) <==> exists|k: int|
            0 <= k < planned_updates(locs, rows, locs.len()).len()
            && rows[planned_updates(locs, rows, locs.len())[k].1].id == Some(id),
{
    let pu = planned_updates(locs, rows, locs.len());
    lemma_planned_updates_members(locs, rows, locs.len());
    lemma_last_row_with_id(rows, id, rows.len());
    if site_names_id(locs, id) {
        let i = choose|i: int| 0 <= i < locs.len() && carries_id(#[trigger] locs[i], id);
        let w = choose|w: int| 0 <= w < rows.len() && (#[trigger] rows[w]).id == Some(id);
        assert(rows[w].id == Some(id));
        assert(referenced_row(rows, locs[i]) == last_row_with_id(rows, id, rows.len()));
        assert(referenced_row(rows, locs[i]) >= 0);
        let k = choose|k: int| 0 <= k < pu.len() && pu[k].0 == i;
        assert(pu[k].1 == referenced_row(rows, locs[i]));
    }
    if exists|k: int| 0 <= k < pu.len() && rows[pu[k].1].id == Some(id) {
        let k = choose|k: int| 0 <= k < pu.len() && rows[pu[k].1].id == Some(id);
        let e = pu[k];
        let l = locs[e.0];
        let x = l.id->0;
        lemma_last_row_with_id(rows, x as i64, rows.len());
        assert(carries_id(locs[e.0], id));
    }
}

} // verus!

verus! {

// ---------------------------------------------------------------------
// Backends of a location that is added to a stored site
// ---------------------------------------------------------------------

/// What an upstream entry of a new location gives: nothing when it does not
/// split into exactly two pieces at `:`, else the trimmed host and the trimmed
/// port read as a `u16`, or the trimmed port text when it is not one.
pub open spec fn new_location_backend(s: Seq<char>) -> Option<Result<(Seq<char>, u16), Seq<char>>> {
    let parts = split_spec(s, ':');
    if parts.len() != 2 {
        None
    } else {
        let host = trim_spec(parts[0]);
        let port = trim_spec(parts[1]);
        match parse_unsigned(port, u16::MAX as nat) {
            Some(v) => Some(Ok((host, v as u16))),
            None => Some(Err(port)),
        }
    }
}

/// The backends that the first `n` upstream entries of a new location give,
/// in order, or the first port that is not a `u16`.
pub open spec fn new_location_backends(ups: Seq<String>, n: nat) -> Result<Seq<(Seq<char>, u16)>, Seq<char>>
    decreases n,
{
    if n == 0 {
        Ok(Seq::empty())
    } else {
        match new_location_backends(ups, (n - 1) as nat) {
            Err(e) => Err(e),
            Ok(prev) => match new_location_backend(ups[n - 1]@) {
                None => Ok(prev),
                Some(Ok(b)) => Ok(prev.push(b)),
                Some(Err(p)) => Err(p),
            },
        }
    }
}

proof fn lemma_new_location_backends_err_stays(ups: Seq<String>, k: nat, n: nat, p: Seq<char>)
    requires
        k <= n,
        new_location_backends(ups, k) == Err::<Seq<(Seq<char>, u16)>, Seq<char>>(p),
    ensures
        new_location_backends(ups, n) == Err::<Seq<(Seq<char>, u16)>, Seq<char>>(p),
    decreases n - k,
{
    if k < n {
        lemma_new_location_backends_err_stays(ups, k, (n - 1) as nat, p);
    }
}

/// The backends stored for a location that is added to a stored site: one
/// per upstream entry of the form `host:port`, in order and with repeats.
pub fn added_location_backends(upstream: &Vec<String>) -> (r: Result<Vec<(String, u16)>, SiteError>)
    ensures
        r matches Ok(v) ==> new_location_backends(upstream@, upstream@.len()) == Ok::<Seq<(Seq<char>, u16)>, Seq<char>>(pairs_view(v@)),
        r matches Err(e) ==> (e matches SiteError::InvalidPort(p)
            && new_location_backends(upstream@, upstream@.len()) == Err::<Seq<(Seq<char>, u16)>, Seq<char>>(p@)),
        r is Err <==> new_location_backends(upstream@, upstream@.len()) is Err,
{
    let mut out: Vec<(String, u16)> = Vec::new();
    let mut i: usize = 0;
    assert(pairs_view(out@) =~= Seq::<(Seq<char>, u16)>::empty());
    while i < upstream.len()
        invariant
            i <= upstream@.len(),
            new_location_backends(upstream@, i as nat) == Ok::<Seq<(Seq<char>, u16)>, Seq<char>>(pairs_view(out@)),
        decreases upstream@.len() - i,
    {
        let cs = chars_of(upstream[i].as_str());
        let parts = split_chars(cs.as_slice(), ':');
        let ghost before = pairs_view(out@);
        if parts.len() == 2 {
            proof {
                assert(vec_views(parts@)[0] == parts@[0]@);
                assert(vec_views(parts@)[1] == parts@[1]@);
            }
            let host = trim(parts[0].as_slice());
            let port = trim(parts[1].as_slice());
            match parse_u16(port.as_slice()) {
                Some(v) => {
                    out.push((string_of(host.as_slice()), v));
                    assert(pairs_view(out@) =~= before.push((host@, v)));
                }
                None => {
                    let p = string_of(port.as_slice());
                    proof {
                        lemma_new_location_backends_err_stays(upstream@, (i + 1) as nat, upstream@.len(), p@);
                    }
                    return Err(SiteError::InvalidPort(p));
                }
            }
        }
        i = i + 1;
    }
    Ok(out)
}

/// Planning rewrites the stored rows that the site's locations carry the
/// ids of: each update pairs a location that has an id with a stored row of
/// that id, and each location whose id some stored row has is updated.
pub proof fn lemma_updates_rewrite_rows_of_their_ids(locs: Seq<ProxyLocation>, rows: Seq<TbLocation>)
    ensures
        forall|k: int| 0 <= k < planned_updates(locs, rows, locs.len()).len() ==> {
            let e = #[trigger] planned_updates(locs, rows, locs.len())[k];
            &&& 0 <= e.0 < locs.len()
            &&& 0 <= e.1 < rows.len()
            &&& locs[e.0].id is Some
            &&& rows[e.1].id == Some(locs[e.0].id->0 as i64)
        },
        forall|a: int, j: int| #![trigger rows[j], locs[a]] 0 <= a < locs.len() && 0 <= j < rows.len()
            && locs[a].id is Some && rows[j].id == Some(locs[a].id->0 as i64) ==>
            exists|k: int| 0 <= k < planned_updates(locs, rows, locs.len()).len()
                && planned_updates(locs, rows, locs.len())[k].0 == a,
{
    lemma_planned_updates_members(locs, rows, locs.len());
    let pu = planned_updates(locs, rows, locs.len());
    assert forall|k: int| 0 <= k < pu.len() implies {
        let e = #[trigger] pu[k];
        &&& 0 <= e.0 < locs.len()
        &&& 0 <= e.1 < rows.len()
        &&& locs[e.0].id is Some
        &&& rows[e.1].id == Some(locs[e.0].id->0 as i64)
    } by {
        let e = pu[k];
        let l = locs[e.0];
        lemma_last_row_with_id(rows, (l.id->0) as i64, rows.len());
    }
    assert forall|a: int, j: int| #![trigger rows[j], locs[a]] 0 <= a < locs.len() && 0 <= j < rows.len()
        && locs[a].id is Some && rows[j].id == Some(locs[a].id->0 as i64) implies
        exists|k: int| 0 <= k < pu.len() && pu[k].0 == a by {
        lemma_last_row_with_id(rows, (locs[a].id->0) as i64, rows.len());
        assert(referenced_row(rows, locs[a]) >= 0);
    }
}

} // verus!
