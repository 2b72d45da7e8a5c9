//! The rows that store a site, its locations and their backends, and the
//! site read back from its rows.

use vstd::prelude::*;
use crate::records::{TbBackend, TbLocation, TbSite};
use crate::site::{ProxyLocation, Site, SiteError, TlsCert};
use crate::text::{int_text, int_to_text, join, join_spec, concat, split_chars, split_spec, chars_of, string_of, vec_views};

verus! {

/// The earliest Unix timestamp that a `time::OffsetDateTime` holds.
pub const MIN_TIMESTAMP: i64 = -377705116800;

/// The latest Unix timestamp that a `time::OffsetDateTime` holds.
pub const MAX_TIMESTAMP: i64 = 253402300799;

/// Whether `OffsetDateTime::from_unix_timestamp` accepts the timestamp.
pub uninterp spec fn timestamp_in_range(x: i64) -> bool;

/// `time::OffsetDateTime::from_unix_timestamp`, read back with
/// `unix_timestamp`: the timestamp itself when the type holds it, else
/// nothing. Every timestamp from the year -9999 to 9999 is held; whether a
/// later or earlier one is depends on the crate's features.
#[verifier::external_body]
pub(crate) fn checked_timestamp(x: i64) -> (r: Option<i64>)
    ensures
        r is Some <==> timestamp_in_range(x),
        r matches Some(v) ==> v == x,
        MIN_TIMESTAMP <= x <= MAX_TIMESTAMP ==> r is Some,
{
    match time::OffsetDateTime::from_unix_timestamp(x) {
        Ok(t) => Some(t.unix_timestamp()),
        Err(_) => None,
    }
}

/// The timestamp, or the Unix epoch when `OffsetDateTime` does not hold it.
pub open spec fn timestamp_or_epoch(x: i64) -> i64 {
    if timestamp_in_range(x) { x } else { 0 }
}

fn checked_timestamp_or_epoch(x: i64) -> (r: i64)
    ensures
        r == timestamp_or_epoch(x),
{
    match checked_timestamp(x) {
        Some(v) => v,
        None => 0,
    }
}

fn clone_opt(o: &Option<String>) -> (r: Option<String>)
    ensures
        r == *o,
{
    match o {
        Some(s) => Some(s.clone()),
        None => None,
    }
}

/// The certificate and key columns of a site: empty when the site gets its
/// certificate by ACME, else the certificate's text, its validity period and the key.
pub open spec fn cert_columns_match(r: TbSite, site: Site) -> bool {
    if site.acme_on {
        &&& r.tls_cert is None
        &&& r.tls_cert_start_date is None
        &&& r.tls_cert_end_date is None
        &&& r.tls_private_key is None
    } else {
        &&& r.tls_private_key == site.tls_private_key
        &&& match site.tls_cert {
            Some(c) => {
                &&& r.tls_cert == Some(c.pem)
                &&& r.tls_cert_start_date == Some(timestamp_or_epoch(c.not_before))
                &&& r.tls_cert_end_date == Some(timestamp_or_epoch(c.not_after))
            },
            None => {
                &&& r.tls_cert is None
                &&& r.tls_cert_start_date is None
                &&& r.tls_cert_end_date is None
            },
        }
    }
}

/// The columns of a site row that the site itself decides (all but id, name and times).
pub open spec fn site_columns_match(r: TbSite, site: Site) -> bool {
    &&& r.cluster_name == Some(site.cluster)
    &&& r.alt_names matches Some(a) && a@ == join_spec(site.alt_names.deep_view(), ","@)
    &&& r.root_dir == site.root_dir
    &&& r.auto_index == site.auto_index
    &&& r.tls_on == site.tls_on
    &&& r.tls_enforce == site.tls_enforce
    &&& r.acme_on == site.acme_on
    &&& cert_columns_match(r, site)
    &&& r.rate_limit == Some(site.rate_limit as i64)
    &&& r.rate_limit_unit == Some(site.rate_limit_unit as i64)
}

fn set_site_columns(r: &mut TbSite, site: &Site)
    ensures
        site_columns_match(*final(r), *site),
        final(r).id == old(r).id,
        final(r).name == old(r).name,
        final(r).gmt_create == old(r).gmt_create,
        final(r).gmt_modified == old(r).gmt_modified,
{
    r.cluster_name = Some(site.cluster.clone());
    r.alt_names = Some(join(&site.alt_names, ","));
    r.root_dir = clone_opt(&site.root_dir);
    r.auto_index = site.auto_index;
    r.tls_on = site.tls_on;
    r.tls_enforce = site.tls_enforce;
    r.acme_on = site.acme_on;
    if site.acme_on {
        r.tls_cert = None;
        r.tls_cert_start_date = None;
        r.tls_cert_end_date = None;
        r.tls_private_key = None;
    } else {
        r.tls_private_key = clone_opt(&site.tls_private_key);
        match &site.tls_cert {
            Some(c) => {
                r.tls_cert = Some(c.pem.clone());
                r.tls_cert_start_date = Some(checked_timestamp_or_epoch(c.not_before));
                r.tls_cert_end_date = Some(checked_timestamp_or_epoch(c.not_after));
            }
            None => {
                r.tls_cert = None;
                r.tls_cert_start_date = None;
                r.tls_cert_end_date = None;
            }
        }
    }
    r.rate_limit = Some(site.rate_limit as i64);
    r.rate_limit_unit = Some(site.rate_limit_unit as i64);
}

/// The row that stores a new site, created at `now`.
pub fn site_row(site: &Site, now: i64) -> (r: TbSite)
    ensures
        site_columns_match(r, *site),
        r.id is None,
        r.name == Some(site.name),
        r.gmt_create == Some(now),
        r.gmt_modified == Some(now),
{
    let mut r = TbSite {
        id: None,
        cluster_name: None,
        name: Some(site.name.clone()),
        alt_names: None,
        root_dir: None,
        auto_index: false,
        tls_on: false,
        tls_enforce: false,
        acme_on: false,
        tls_cert: None,
        tls_cert_start_date: None,
        tls_cert_end_date: None,
        tls_private_key: None,
        rate_limit: None,
        rate_limit_unit: None,
        gmt_create: Some(now),
        gmt_modified: Some(now),
    };
    set_site_columns(&mut r, site);
    r
}

/// The stored row of a site changed to `site` at `now`: id, name and creation time stay.
pub fn updated_site_row(stored: TbSite, site: &Site, now: i64) -> (r: TbSite)
    ensures
        site_columns_match(r, *site),
        r.id == stored.id,
        r.name == stored.name,
        r.gmt_create == stored.gmt_create,
        r.gmt_modified == Some(now),
{
    let mut r = stored;
    set_site_columns(&mut r, site);
    r.gmt_modified = Some(now);
    r
}

/// The columns of a location row that the location decides.
pub open spec fn location_columns_match(r: TbLocation, l: ProxyLocation) -> bool {
    &&& r.location == Some(l.path)
    &&& r.proxy == Some(if l.proxy { 1i8 } else { 0i8 })
    &&& r.protocol == Some(l.protocol)
    &&& r.connection_timeout == Some(l.connection_timeout as i32)
    &&& r.read_timeout == Some(l.read_timeout as i32)
    &&& r.write_timeout == Some(l.write_timeout as i32)
    &&& r.idle_timeout == Some(l.idle_timeout as i32)
    &&& r.sni == Some(l.sni)
    &&& r.client_max_body_size == Some(l.client_max_body_size as i64)
    &&& r.proxy_set_headers == l.proxy_set_headers
    &&& r.proxy_add_headers == l.proxy_add_headers
    &&& r.proxy_remove_headers == l.proxy_remove_headers
    &&& r.response_set_headers == l.response_set_headers
    &&& r.response_add_headers == l.response_add_headers
    &&& r.response_remove_headers == l.response_remove_headers
    &&& r.rewrite == l.rewrite
    &&& r.http_version == l.http_version
    &&& r.root_dir == l.root_dir
    &&& r.auto_index == Some(if l.auto_index { 1i8 } else { 0i8 })
}

/// The row that stores location `l` of site `site_id`, written at `now`.
pub fn location_row(site_id: i64, l: &ProxyLocation, now: i64) -> (r: TbLocation)
    ensures
        location_columns_match(r, *l),
        r.id is None,
        r.site_id == Some(site_id),
        r.gmt_create == Some(now),
        r.gmt_modified == Some(now),
{
    TbLocation {
        id: None,
        site_id: Some(site_id),
        location: Some(l.path.clone()),
        proxy: Some(if l.proxy { 1i8 } else { 0i8 }),
        protocol: Some(l.protocol.clone()),
        connection_timeout: Some(l.connection_timeout as i32),
        read_timeout: Some(l.read_timeout as i32),
        write_timeout: Some(l.write_timeout as i32),
        idle_timeout: Some(l.idle_timeout as i32),
        gmt_create: Some(now),
        gmt_modified: Some(now),
        sni: Some(l.sni.clone()),
        client_max_body_size: Some(l.client_max_body_size as i64),
        proxy_set_headers: clone_opt(&l.proxy_set_headers),
        proxy_add_headers: clone_opt(&l.proxy_add_headers),
        proxy_remove_headers: clone_opt(&l.proxy_remove_headers),
        response_set_headers: clone_opt(&l.response_set_headers),
        response_add_headers: clone_opt(&l.response_add_headers),
        response_remove_headers: clone_opt(&l.response_remove_headers),
        rewrite: clone_opt(&l.rewrite),
        http_version: clone_opt(&l.http_version),
        root_dir: clone_opt(&l.root_dir),
        auto_index: Some(if l.auto_index { 1i8 } else { 0i8 }),
    }
}

/// The row of stored location `stored` rewritten from `l` at `now`: it keeps its creation time.
pub fn updated_location_row(site_id: i64, l: &ProxyLocation, stored: &TbLocation, now: i64) -> (r: TbLocation)
    ensures
        location_columns_match(r, *l),
        r.id is None,
        r.site_id == Some(site_id),
        r.gmt_create == stored.gmt_create,
        r.gmt_modified == Some(now),
{
    let mut r = location_row(site_id, l, now);
    r.gmt_create = stored.gmt_create;
    r
}

/// The row that stores backend `host:port` of location `location_id`, written at `now`.
pub fn backend_row(location_id: i64, host: &str, port: u16, now: i64) -> (r: TbBackend)
    ensures
        r.id is None,
        r.location_id == Some(location_id),
        r.host matches Some(h) && h@ == host@,
        r.port == Some(port as i32),
        r.gmt_create == Some(now),
        r.gmt_modified == Some(now),
{
    TbBackend {
        id: None,
        location_id: Some(location_id),
        host: Some(host.to_owned()),
        port: Some(port as i32),
        gmt_create: Some(now),
        gmt_modified: Some(now),
    }
}

} // verus!

verus! {

// ---------------------------------------------------------------------
// A site read back from its rows
// ---------------------------------------------------------------------

/// The upstream entry `host:port` that a stored backend gives.
pub open spec fn backend_entry(b: TbBackend) -> Seq<char> {
    b.host->0@ + ":"@ + int_text(b.port->0 as int)
}

/// The alternative names kept in a site row: the pieces between commas, none for an empty text.
pub open spec fn stored_alt_names(alt: Option<String>) -> Seq<Seq<char>> {
    match alt {
        Some(a) => if a@.len() > 0 { split_spec(a@, ',') } else { Seq::empty() },
        None => Seq::empty(),
    }
}

/// A stored row can be read back: it has a path and a protocol, and every
/// backend has a host and a port.
pub open spec fn location_readable(row: TbLocation, backends: Seq<TbBackend>) -> bool {
    &&& row.location is Some
    &&& row.protocol is Some
    &&& forall|j: int| 0 <= j < backends.len() ==> (#[trigger] backends[j]).host is Some && backends[j].port is Some
}

/// The location read back from its row and backends.
pub open spec fn location_from_row(l: ProxyLocation, row: TbLocation, backends: Seq<TbBackend>) -> bool {
    &&& l.id == Some(row.id->0 as u64)
    &&& l.path == row.location->0
    &&& l.proxy == (row.proxy == Some(1i8))
    &&& l.protocol == row.protocol->0
    &&& l.upstream@.len() == backends.len()
    &&& forall|j: int| 0 <= j < backends.len() ==> (#[trigger] l.upstream@[j])@ == backend_entry(backends[j])
    &&& l.connection_timeout == (match row.connection_timeout { Some(t) => t as u32, None => 5u32 })
    &&& l.read_timeout == (match row.read_timeout { Some(t) => t as u32, None => 5u32 })
    &&& l.write_timeout == (match row.write_timeout { Some(t) => t as u32, None => 5u32 })
    &&& l.idle_timeout == (match row.idle_timeout { Some(t) => t as u32, None => 60u32 })
    &&& (match row.sni { Some(s) => l.sni == s, None => l.sni@ == "$host"@ })
    &&& l.client_max_body_size == (match row.client_max_body_size { Some(t) => t as usize, None => 0usize })
    &&& l.rewrite == row.rewrite
    &&& l.http_version == row.http_version
    &&& l.proxy_set_headers == row.proxy_set_headers
    &&& l.proxy_add_headers == row.proxy_add_headers
    &&& l.proxy_remove_headers == row.proxy_remove_headers
    &&& l.response_set_headers == row.response_set_headers
    &&& l.response_add_headers == row.response_add_headers
    &&& l.response_remove_headers == row.response_remove_headers
    &&& l.root_dir == row.root_dir
    &&& l.auto_index == (row.auto_index == Some(1i8))
}

/// The rate limit unit read back: 1000 when none or zero is stored.
pub open spec fn stored_rate_limit_unit(u: Option<i64>) -> u64 {
    match u {
        Some(i) => if i == 0 { 1000 } else { i as u64 },
        None => 1000,
    }
}

/// The first error met while reading a site back, if any: a missing cluster,
/// name or id, then the first location row without id.
pub open spec fn site_read_error(row: TbSite, locations: Seq<(TbLocation, Vec<TbBackend>)>) -> Option<SiteError> {
    if row.cluster_name is None {
        Some(SiteError::ClusterNull)
    } else if row.name is None {
        Some(SiteError::NameNull)
    } else if row.id is None {
        Some(SiteError::IdNull)
    } else if exists|i: int| 0 <= i < locations.len() && (#[trigger] locations[i]).0.id is None {
        Some(SiteError::LocationIdNull)
    } else {
        None
    }
}

fn backend_entry_text(b: &TbBackend) -> (s: String)
    requires
        b.host is Some,
        b.port is Some,
    ensures
        s@ == backend_entry(*b),
{
    let host = b.host.as_ref().unwrap();
    let port: i32 = *b.port.as_ref().unwrap();
    let mut s = concat(host.as_str(), ":");
    let p = int_to_text(port as i64);
    crate::text::push_all(&mut s, p.as_str());
    s
}

fn location_from_row_exec(row: &TbLocation, backends: &Vec<TbBackend>) -> (l: ProxyLocation)
    requires
        row.id is Some,
        location_readable(*row, backends@),
    ensures
        location_from_row(l, *row, backends@),
{
    let mut upstream: Vec<String> = Vec::new();
    let mut j: usize = 0;
    while j < backends.len()
        invariant
            j <= backends@.len(),
            location_readable(*row, backends@),
            upstream@.len() == j,
            forall|m: int| 0 <= m < j ==> (#[trigger] upstream@[m])@ == backend_entry(backends@[m]),
        decreases backends@.len() - j,
    {
        assert(backends@[j as int].host is Some && backends@[j as int].port is Some);
        let e = backend_entry_text(&backends[j]);
        upstream.push(e);
        j = j + 1;
    }
    let sni = match &row.sni {
        Some(s) => s.clone(),
        None => "$host".to_string(),
    };
    ProxyLocation {
        id: Some(*row.id.as_ref().unwrap() as u64),
        path: row.location.as_ref().unwrap().clone(),
        proxy: row.proxy == Some(1i8),
        protocol: row.protocol.as_ref().unwrap().clone(),
        upstream,
        connection_timeout: match row.connection_timeout { Some(t) => t as u32, None => 5u32 },
        read_timeout: match row.read_timeout { Some(t) => t as u32, None => 5u32 },
        write_timeout: match row.write_timeout { Some(t) => t as u32, None => 5u32 },
        idle_timeout: match row.idle_timeout { Some(t) => t as u32, None => 60u32 },
        sni,
        client_max_body_size: match row.client_max_body_size { Some(t) => t as usize, None => 0usize },
        rewrite: clone_opt(&row.rewrite),
        http_version: clone_opt(&row.http_version),
        proxy_set_headers: clone_opt(&row.proxy_set_headers),
        proxy_add_headers: clone_opt(&row.proxy_add_headers),
        proxy_remove_headers: clone_opt(&row.proxy_remove_headers),
        response_set_headers: clone_opt(&row.response_set_headers),
        response_add_headers: clone_opt(&row.response_add_headers),
        response_remove_headers: clone_opt(&row.response_remove_headers),
        root_dir: clone_opt(&row.root_dir),
        auto_index: row.auto_index == Some(1i8),
    }
}

/// The site read back from its row and location rows, with the certificate,
/// key and validity dates read from the row's texts.
pub open spec fn site_read_back(
    site: Site,
    row: TbSite,
    tls_cert: Option<TlsCert>,
    tls_private_key: Option<String>,
    tls_cert_start_date: Option<String>,
    tls_cert_end_date: Option<String>,
    locations: Seq<(TbLocation, Vec<TbBackend>)>,
) -> bool {
    &&& site.id == Some(row.id->0 as u64)
    &&& site.cluster == row.cluster_name->0
    &&& site.name == row.name->0
    &&& site.alt_names.deep_view() == stored_alt_names(row.alt_names)
    &&& site.auto_index == row.auto_index
    &&& site.root_dir == row.root_dir
    &&& site.tls_on == row.tls_on
    &&& site.tls_enforce == row.tls_enforce
    &&& site.acme_on == row.acme_on
    &&& site.tls_cert == tls_cert
    &&& site.tls_private_key == tls_private_key
    &&& site.tls_cert_start_date == tls_cert_start_date
    &&& site.tls_cert_end_date == tls_cert_end_date
    &&& site.rate_limit == (match row.rate_limit { Some(i) => i as isize, None => 0isize })
    &&& site.rate_limit_unit == stored_rate_limit_unit(row.rate_limit_unit)
    &&& site.locations@.len() == locations.len()
    &&& forall|i: int| 0 <= i < locations.len() ==>
        location_from_row(#[trigger] site.locations@[i], locations[i].0, locations[i].1@)
}

/// A location read back has one upstream entry per stored backend row, in
/// the rows' order, each the backend's host, a colon and its port.
pub proof fn lemma_location_upstream_is_its_backends(l: ProxyLocation, row: TbLocation, backends: Seq<TbBackend>)
    requires
        location_from_row(l, row, backends),
    ensures
        l.upstream@.len() == backends.len(),
        forall|j: int| 0 <= j < backends.len() ==>
            (#[trigger] l.upstream@[j])@ == backends[j].host->0@ + ":"@ + int_text(backends[j].port->0 as int),
{
}

/// Reading a site back keeps every backend of every location: each location
/// has as many upstream entries as it has backend rows, each `host:port`.
pub proof fn lemma_site_read_back_keeps_backends(
    site: Site,
    row: TbSite,
    tls_cert: Option<TlsCert>,
    tls_private_key: Option<String>,
    tls_cert_start_date: Option<String>,
    tls_cert_end_date: Option<String>,
    locations: Seq<(TbLocation, Vec<TbBackend>)>,
)
    requires
        site_read_back(site, row, tls_cert, tls_private_key, tls_cert_start_date, tls_cert_end_date, locations),
    ensures
        site.locations@.len() == locations.len(),
        forall|i: int, j: int| 0 <= i < locations.len() && 0 <= j < locations[i].1@.len() ==>
            (#[trigger] site.locations@[i].upstream@[j])@ == locations[i].1@[j].host->0@ + ":"@
                + int_text(locations[i].1@[j].port->0 as int),
        forall|i: int| 0 <= i < locations.len() ==>
            (#[trigger] site.locations@[i]).upstream@.len() == locations[i].1@.len(),
{
    assert forall|i: int, j: int| 0 <= i < locations.len() && 0 <= j < locations[i].1@.len() implies
        (#[trigger] site.locations@[i].upstream@[j])@ == locations[i].1@[j].host->0@ + ":"@
            + int_text(locations[i].1@[j].port->0 as int) by {
        lemma_location_upstream_is_its_backends(site.locations@[i], locations[i].0, locations[i].1@);
    }
    assert forall|i: int| 0 <= i < locations.len() implies
        (#[trigger] site.locations@[i]).upstream@.len() == locations[i].1@.len() by {
        lemma_location_upstream_is_its_backends(site.locations@[i], locations[i].0, locations[i].1@);
    }
}

/// The site that its rows describe. The certificate, the key and the
/// formatted validity dates are handed in as read from the row's texts.
/// Reading stops at a missing cluster, name or id, or at a location row without id.
pub fn site_from_rows(
    row: &TbSite,
    tls_cert: Option<TlsCert>,
    tls_private_key: Option<String>,
    tls_cert_start_date: Option<String>,
    tls_cert_end_date: Option<String>,
    locations: &Vec<(TbLocation, Vec<TbBackend>)>,
) -> (r: Result<Site, SiteError>)
    requires
        forall|i: int| 0 <= i < locations@.len() ==>
            location_readable((#[trigger] locations@[i]).0, locations@[i].1@),
    ensures
        site_read_error(*row, locations@) matches Some(e) ==> r == Err::<Site, SiteError>(e),
        site_read_error(*row, locations@) is None ==> (r matches Ok(site) && site_read_back(
            site, *row, tls_cert, tls_private_key, tls_cert_start_date, tls_cert_end_date, locations@)),
{
    let cluster = match &row.cluster_name {
        Some(c) => c.clone(),
        None => return Err(SiteError::ClusterNull),
    };
    let name = match &row.name {
        Some(n) => n.clone(),
        None => return Err(SiteError::NameNull),
    };
    let mut alt_names: Vec<String> = Vec::new();
    match &row.alt_names {
        Some(a) => {
            let cs = chars_of(a.as_str());
            if cs.len() > 0 {
                let parts = split_chars(cs.as_slice(), ',');
                let mut k: usize = 0;
                while k < parts.len()
                    invariant
                        k <= parts@.len(),
                        alt_names@.len() == k,
                        forall|m: int| 0 <= m < k ==> (#[trigger] alt_names@[m])@ == parts@[m]@,
                    decreases parts@.len() - k,
                {
                    alt_names.push(string_of(parts[k].as_slice()));
                    k = k + 1;
                }
                proof {
                    assert(alt_names.deep_view() =~= vec_views(parts@));
                }
            } else {
                assert(alt_names.deep_view() =~= Seq::<Seq<char>>::empty());
            }
        }
        None => {
            assert(alt_names.deep_view() =~= Seq::<Seq<char>>::empty());
        }
    }
    if row.id.is_none() {
        return Err(SiteError::IdNull);
    }
    let site_id: i64 = *row.id.as_ref().unwrap();
    let mut locs: Vec<ProxyLocation> = Vec::new();
    let mut i: usize = 0;
    while i < locations.len()
        invariant
            i <= locations@.len(),
            row.cluster_name is Some && row.name is Some && row.id is Some,
            forall|m: int| 0 <= m < locations@.len() ==>
                location_readable((#[trigger] locations@[m]).0, locations@[m].1@),
            forall|m: int| 0 <= m < i ==> (#[trigger] locations@[m]).0.id is Some,
            locs@.len() == i,
            forall|m: int| 0 <= m < i ==>
                location_from_row(#[trigger] locs@[m], locations@[m].0, locations@[m].1@),
        decreases locations@.len() - i,
    {
        let entry = &locations[i];
        if entry.0.id.is_none() {
            assert(locations@[i as int].0.id is None);
            return Err(SiteError::LocationIdNull);
        }
        assert(location_readable(locations@[i as int].0, locations@[i as int].1@));
        let l = location_from_row_exec(&entry.0, &entry.1);
        locs.push(l);
        i = i + 1;
    }
    assert(!(exists|m: int| 0 <= m < locations@.len() && (#[trigger] locations@[m]).0.id is None));
    let rate_limit: isize = match row.rate_limit { Some(v) => v as isize, None => 0isize };
    let rate_limit_unit: u64 = match row.rate_limit_unit {
        Some(v) => if v == 0 { 1000u64 } else { v as u64 },
        None => 1000u64,
    };
    let _ = site_id;
    Ok(Site {
        id: Some(site_id as u64),
        cluster,
        name,
        alt_names,
        auto_index: row.auto_index,
        root_dir: clone_opt(&row.root_dir),
        tls_on: row.tls_on,
        tls_enforce: row.tls_enforce,
        acme_on: row.acme_on,
        tls_cert,
        tls_cert_start_date,
        tls_cert_end_date,
        tls_private_key,
        rate_limit,
        rate_limit_unit,
        locations: locs,
    })
}

} // verus!

verus! {

/// A location written to its row and read back is the same location, but
/// for its id, which the row gives, and its upstream, which its backend rows give.
pub proof fn lemma_location_row_round_trip(l: ProxyLocation, row: TbLocation, backends: Seq<TbBackend>, back: ProxyLocation)
    requires
        location_columns_match(row, l),
        location_from_row(back, row, backends),
    ensures
        back.path == l.path,
        back.proxy == l.proxy,
        back.protocol == l.protocol,
        back.connection_timeout == l.connection_timeout,
        back.read_timeout == l.read_timeout,
        back.write_timeout == l.write_timeout,
        back.idle_timeout == l.idle_timeout,
        back.sni == l.sni,
        back.client_max_body_size == l.client_max_body_size,
        back.rewrite == l.rewrite,
        back.http_version == l.http_version,
        back.proxy_set_headers == l.proxy_set_headers,
        back.proxy_add_headers == l.proxy_add_headers,
        back.proxy_remove_headers == l.proxy_remove_headers,
        back.response_set_headers == l.response_set_headers,
        back.response_add_headers == l.response_add_headers,
        back.response_remove_headers == l.response_remove_headers,
        back.root_dir == l.root_dir,
        back.auto_index == l.auto_index,
{
    let c = l.connection_timeout;
    let r = l.read_timeout;
    let w = l.write_timeout;
    let i = l.idle_timeout;
    let m = l.client_max_body_size;
    assert((c as i32) as u32 == c) by (bit_vector);
    assert((r as i32) as u32 == r) by (bit_vector);
    assert((w as i32) as u32 == w) by (bit_vector);
    assert((i as i32) as u32 == i) by (bit_vector);
    assert((m as i64) as usize == m) by (bit_vector);
}

/// A site written to its row and read back has the same cluster, name,
/// alternative names, flags, root directory and rate limit. This holds when
/// its alternative names are not just one empty name (which reads back as
/// none) and none holds a comma, and its rate limit unit is not zero (zero
/// reads back as 1000).
pub proof fn lemma_site_row_round_trip(
    site: Site,
    row: TbSite,
    back: Site,
    tls_cert: Option<TlsCert>,
    tls_private_key: Option<String>,
    tls_cert_start_date: Option<String>,
    tls_cert_end_date: Option<String>,
    locations: Seq<(TbLocation, Vec<TbBackend>)>,
)
    requires
        site_columns_match(row, site),
        row.name == Some(site.name),
        !(site.alt_names@.len() == 1 && site.alt_names@[0]@.len() == 0),
        forall|i: int| 0 <= i < site.alt_names@.len() ==> !(#[trigger] site.alt_names@[i])@.contains(','),
        site.rate_limit_unit != 0,
        site_read_back(back, row, tls_cert, tls_private_key, tls_cert_start_date, tls_cert_end_date, locations),
    ensures
        back.cluster == site.cluster,
        back.name == site.name,
        back.alt_names.deep_view() == site.alt_names.deep_view(),
        back.auto_index == site.auto_index,
        back.root_dir == site.root_dir,
        back.tls_on == site.tls_on,
        back.tls_enforce == site.tls_enforce,
        back.acme_on == site.acme_on,
        back.rate_limit == site.rate_limit,
        back.rate_limit_unit == site.rate_limit_unit,
{
    let parts = site.alt_names.deep_view();
    assert forall|i: int| 0 <= i < parts.len() implies !(#[trigger] parts[i]).contains(',') by {
        assert(parts[i] == site.alt_names@[i]@);
    }
    if parts.len() == 0 {
        assert(join_spec(parts, ","@) =~= Seq::<char>::empty());
        assert(back.alt_names.deep_view() =~= parts);
    } else {
        lemma_site_alt_names_round_trip(parts, row, back);
    }
    let rl = site.rate_limit;
    let ru = site.rate_limit_unit;
    assert((rl as i64) as isize == rl) by (bit_vector);
    assert((ru as i64) as u64 == ru) by (bit_vector);
    assert(ru != 0 ==> (ru as i64) != 0) by (bit_vector);
}

/// Alternative names joined with commas and read back are the same names,
/// when there is at least one, not just one empty name, and none holds a comma.
proof fn lemma_site_alt_names_round_trip(parts: Seq<Seq<char>>, row: TbSite, back: Site)
    requires
        parts.len() >= 1,
        !(parts.len() == 1 && parts[0].len() == 0),
        forall|i: int| 0 <= i < parts.len() ==> !(#[trigger] parts[i]).contains(','),
        row.alt_names matches Some(a) && a@ == join_spec(parts, ","@),
        back.alt_names.deep_view() == stored_alt_names(row.alt_names),
    ensures
        back.alt_names.deep_view() == parts,
{
    crate::text::lemma_split_join(parts, ',');
    assert(","@ =~= seq![',']) by {
        reveal_strlit(",");
    }
    let a = row.alt_names->0;
    assert(a@ == join_spec(parts, seq![',']));
    assert(split_spec(a@, ',') == parts);
    if a@.len() == 0 {
        assert(split_spec(a@, ',') =~= seq![a@]) by {
            crate::text::lemma_split_no_sep(a@, ',');
        }
        assert(parts.len() == 1);
    }
}

} // verus!

verus! {

/// The row of a stored site after a new certificate and key were issued at
/// `now`: the certificate, its validity period and the key change, nothing else.
pub fn cert_updated_site_row(stored: TbSite, cert: TlsCert, key: String, now: i64) -> (r: TbSite)
    ensures
        r.tls_cert == Some(cert.pem),
        r.tls_cert_start_date == Some(timestamp_or_epoch(cert.not_before)),
        r.tls_cert_end_date == Some(timestamp_or_epoch(cert.not_after)),
        r.tls_private_key == Some(key),
        r.gmt_modified == Some(now),
        r.id == stored.id && r.cluster_name == stored.cluster_name && r.name == stored.name,
        r.alt_names == stored.alt_names && r.root_dir == stored.root_dir,
        r.auto_index == stored.auto_index && r.tls_on == stored.tls_on,
        r.tls_enforce == stored.tls_enforce && r.acme_on == stored.acme_on,
        r.rate_limit == stored.rate_limit && r.rate_limit_unit == stored.rate_limit_unit,
        r.gmt_create == stored.gmt_create,
{
    let mut r = stored;
    let start = checked_timestamp_or_epoch(cert.not_before);
    let end = checked_timestamp_or_epoch(cert.not_after);
    r.tls_cert = Some(cert.pem);
    r.tls_cert_start_date = Some(start);
    r.tls_cert_end_date = Some(end);
    r.tls_private_key = Some(key);
    r.gmt_modified = Some(now);
    r
}

} // verus!
