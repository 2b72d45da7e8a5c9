//! Everything that adding or changing a site does to the stored rows,
//! decided before any row is written.

use vstd::prelude::*;
use crate::records::{TbBackend, TbLocation, TbSite};
use crate::site::{
    added_backends, added_location_backends, backend_complete, check_site, deleted_ids, first_backends,
    lacks_backends, new_location_backends, pairs_view, parse_upstreams, plan_backend_changes,
    plan_location_changes, planned_additions, planned_updates, site_names_id, stored_has_id, ProxyLocation,
    Site, SiteError,
};
use crate::site_rows::{location_columns_match, location_row, site_columns_match, updated_location_row, updated_site_row};

verus! {

/// A stored location rewritten from a location of the site, with the
/// changes to its backends.
pub struct LocationUpdate {
    pub location_id: i64,
    pub row: TbLocation,
    pub delete_backend_ids: Vec<i64>,
    pub add_backends: Vec<(String, u16)>,
}

/// A location of the site that is stored anew, with its backends.
pub struct LocationAddition {
    pub row: TbLocation,
    pub backends: Vec<(String, u16)>,
}

/// What changing a site writes: the site's row, the stored locations it
/// rewrites, the locations it adds, and the stored locations it deletes.
pub struct SiteUpdate {
    pub site_row: TbSite,
    pub updates: Vec<LocationUpdate>,
    pub additions: Vec<LocationAddition>,
    pub delete_location_ids: Vec<i64>,
}

/// The rewrite of stored row `row` (with backends `backends`) from location `l`.
pub open spec fn update_matches(u: LocationUpdate, site_id: i64, l: ProxyLocation, row: TbLocation, backends: Seq<TbBackend>, now: i64) -> bool {
    let want = first_backends(l.upstream@, l.upstream@.len());
    &&& u.location_id == row.id->0
    &&& location_columns_match(u.row, l)
    &&& u.row.id is None
    &&& u.row.site_id == Some(site_id)
    &&& u.row.gmt_create == row.gmt_create
    &&& u.row.gmt_modified == Some(now)
    &&& u.delete_backend_ids@ == deleted_ids(backends, want, backends.len())
    &&& pairs_view(u.add_backends@) == added_backends(want, backends, want.len())
}

/// The new row of location `l` with the backends it names.
pub open spec fn addition_matches(a: LocationAddition, site_id: i64, l: ProxyLocation, now: i64) -> bool {
    &&& location_columns_match(a.row, l)
    &&& a.row.id is None
    &&& a.row.site_id == Some(site_id)
    &&& a.row.gmt_create == Some(now)
    &&& a.row.gmt_modified == Some(now)
    &&& new_location_backends(l.upstream@, l.upstream@.len()) == Ok::<Seq<(Seq<char>, u16)>, Seq<char>>(pairs_view(a.backends@))
}

/// The site has a location, and every proxying location names a backend.
pub open spec fn site_passes_check(site: Site) -> bool {
    site.locations@.len() > 0
        && forall|i: int| 0 <= i < site.locations@.len() ==> !lacks_backends(#[trigger] site.locations@[i])
}

/// The site to change is stored and has an id.
pub open spec fn stored_has_site_id(stored: Option<TbSite>) -> bool {
    stored is Some && stored->0.id is Some
}

/// Some planned update meets a stored backend without host or port.
pub open spec fn update_meets_incomplete_backend(locs: Seq<ProxyLocation>, rows: Seq<TbLocation>, backends: Seq<Vec<TbBackend>>) -> bool {
    let pu = planned_updates(locs, rows, locs.len());
    exists|k: int, j: int| 0 <= k < pu.len() && 0 <= j < backends[pu[k].1]@.len()
        && !backend_complete(#[trigger] backends[pu[k].1]@[j])
}

/// Some added location has an upstream entry whose port is not a `u16`.
pub open spec fn addition_has_bad_port(locs: Seq<ProxyLocation>) -> bool {
    let pa = planned_additions(locs, locs.len());
    exists|k: int| 0 <= k < pa.len() && (#[trigger] locs[pa[k]]).upstream@.len() >= 0
        && new_location_backends(locs[pa[k]].upstream@, locs[pa[k]].upstream@.len()) is Err
}

proof fn lemma_planned_indices(locs: Seq<ProxyLocation>, rows: Seq<TbLocation>, n: nat)
    requires
        n <= locs.len(),
    ensures
        forall|k: int| 0 <= k < planned_updates(locs, rows, n).len() ==>
            0 <= (#[trigger] planned_updates(locs, rows, n)[k]).0 < n
            && 0 <= planned_updates(locs, rows, n)[k].1 < rows.len(),
        forall|k: int| 0 <= k < planned_additions(locs, n).len() ==>
            0 <= #[trigger] planned_additions(locs, n)[k] < n,
    decreases n,
{
    if n > 0 {
        lemma_planned_indices(locs, rows, (n - 1) as nat);
        let l = locs[n - 1];
        if l.id is Some {
            crate::site::lemma_last_row_with_id(rows, (l.id->0) as i64, rows.len());
        }
        let pu = planned_updates(locs, rows, n);
        let pu0 = planned_updates(locs, rows, (n - 1) as nat);
        assert forall|k: int| 0 <= k < pu.len() implies
            0 <= (#[trigger] pu[k]).0 < n && 0 <= pu[k].1 < rows.len() by {
            if k < pu0.len() {
                assert(pu[k] == pu0[k]);
            }
        }
        let pa = planned_additions(locs, n);
        let pa0 = planned_additions(locs, (n - 1) as nat);
        assert forall|k: int| 0 <= k < pa.len() implies 0 <= #[trigger] pa[k] < n by {
            if k < pa0.len() {
                assert(pa[k] == pa0[k]);
            }
        }
    }
}

/// Everything that changing a stored site to `site` writes, at `now`. The
/// site is checked first; then the stored site must exist and have an id;
/// then every stored backend of a rewritten location must have host and
/// port; then every port of an added location must be a `u16`.
pub fn plan_site_update(
    site: &Site,
    stored: Option<TbSite>,
    rows: &Vec<TbLocation>,
    backends: &Vec<Vec<TbBackend>>,
    now: i64,
) -> (r: Result<SiteUpdate, SiteError>)
    requires
        backends@.len() == rows@.len(),
    ensures
        site.locations@.len() == 0 ==> r == Err::<SiteUpdate, SiteError>(SiteError::LocationEmpty),
        (exists|i: int| 0 <= i < site.locations@.len() && lacks_backends(#[trigger] site.locations@[i]))
            ==> (r matches Err(e) && (e is LocationEmpty || e is BackendsEmpty)),
        (r == Err::<SiteUpdate, SiteError>(SiteError::ServerNotFound)) <==> (site_passes_check(*site) && stored is None),
        (r == Err::<SiteUpdate, SiteError>(SiteError::ServerIdNotFound)) <==> (site_passes_check(*site)
            && stored is Some && stored->0.id is None),
        (r == Err::<SiteUpdate, SiteError>(SiteError::HostEmpty)) <==> (site_passes_check(*site)
            && stored_has_site_id(stored) && update_meets_incomplete_backend(site.locations@, rows@, backends@)),
        r is Err && !(r == Err::<SiteUpdate, SiteError>(SiteError::HostEmpty)) && site_passes_check(*site) && stored_has_site_id(stored)
            ==> (r matches Err(e) && e is InvalidPort && addition_has_bad_port(site.locations@)),
        r is Ok <==> (site_passes_check(*site) && stored_has_site_id(stored)
            && !update_meets_incomplete_backend(site.locations@, rows@, backends@)
            && !addition_has_bad_port(site.locations@)),
        r matches Ok(u) ==> {
            let s = stored->0;
            let site_id = s.id->0;
            let locs = site.locations@;
            let pu = planned_updates(locs, rows@, locs.len());
            let pa = planned_additions(locs, locs.len());
            &&& site_columns_match(u.site_row, *site)
            &&& u.site_row.id == s.id
            &&& u.site_row.name == s.name
            &&& u.site_row.gmt_create == s.gmt_create
            &&& u.site_row.gmt_modified == Some(now)
            &&& u.updates@.len() == pu.len()
            &&& forall|k: int| 0 <= k < pu.len() ==> update_matches(#[trigger] u.updates@[k], site_id,
                locs[pu[k].0], rows@[pu[k].1], backends@[pu[k].1]@, now)
            &&& u.additions@.len() == pa.len()
            &&& forall|k: int| 0 <= k < pa.len() ==> addition_matches(#[trigger] u.additions@[k], site_id, locs[pa[k]], now)
            &&& crate::site::distinct_ids(u.delete_location_ids@)
            &&& forall|id: i64| u.delete_location_ids@.contains(id) <==> (stored_has_id(rows@, id) && !site_names_id(locs, id))
        },
{
    let checked = check_site(site);
    match checked {
        Err(e) => {
            assert(e is LocationEmpty || e is BackendsEmpty);
            assert(!site_passes_check(*site));
            return Err(e);
        }
        Ok(()) => {}
    }
    let stored_row = match stored {
        Some(s) => s,
        None => return Err(SiteError::ServerNotFound),
    };
    let site_id: i64 = match stored_row.id {
        Some(id) => id,
        None => return Err(SiteError::ServerIdNotFound),
    };
    let ghost locs = site.locations@;
    let plan = plan_location_changes(&site.locations, rows);
    let ghost pu = planned_updates(locs, rows@, locs.len());
    let ghost pa = planned_additions(locs, locs.len());
    proof {
        lemma_planned_indices(locs, rows@, locs.len());
        crate::site::lemma_planned_updates_members(locs, rows@, locs.len());
        assert(plan.update@.len() == pu.len()) by {
            assert(crate::site::index_pairs_view(plan.update@).len() == plan.update@.len());
        }
    }
    let mut updates: Vec<LocationUpdate> = Vec::new();
    let mut k: usize = 0;
    while k < plan.update.len()
        invariant
            k <= plan.update@.len(),
            site_passes_check(*site),
            stored_has_site_id(stored),
            backends@.len() == rows@.len(),
            locs == site.locations@,
            pu == planned_updates(locs, rows@, locs.len()),
            crate::site::index_pairs_view(plan.update@) == pu,
            forall|q: int| 0 <= q < pu.len() ==> 0 <= (#[trigger] pu[q]).0 < locs.len() && 0 <= pu[q].1 < rows@.len()
                && pu[q].1 == crate::site::referenced_row(rows@, locs[pu[q].0]),
            updates@.len() == k,
            forall|q: int| 0 <= q < k ==> update_matches(#[trigger] updates@[q], site_id,
                locs[pu[q].0], rows@[pu[q].1], backends@[pu[q].1]@, now),
            forall|q: int, j: int| 0 <= q < k && 0 <= j < backends@[pu[q].1]@.len()
                ==> backend_complete(#[trigger] backends@[pu[q].1]@[j]),
        decreases plan.update@.len() - k,
    {
        let (i, j) = plan.update[k];
        assert(pu[k as int] == (i as int, j as int));
        let l = &site.locations[i];
        let row = &rows[j];
        let desired = parse_upstreams(&l.upstream);
        match plan_backend_changes(&desired, &backends[j]) {
            Err(e) => {
                proof {
                    let w = choose|w: int| 0 <= w < backends@[j as int]@.len() && !backend_complete(#[trigger] backends@[j as int]@[w]);
                    assert(!backend_complete(backends@[pu[k as int].1]@[w]));
                    assert(update_meets_incomplete_backend(locs, rows@, backends@));
                }
                return Err(e);
            }
            Ok(bp) => {
                let new_row = updated_location_row(site_id, l, row, now);
                let location_id: i64 = match row.id {
                    Some(x) => x,
                    None => 0,
                };
                proof {
                    assert(l.id is Some);
                    crate::site::lemma_last_row_with_id(rows@, (l.id->0) as i64, rows@.len());
                    assert(row.id is Some);
                }
                updates.push(LocationUpdate {
                    location_id,
                    row: new_row,
                    delete_backend_ids: bp.delete_ids,
                    add_backends: bp.add,
                });
            }
        }
        k = k + 1;
    }
    assert(!update_meets_incomplete_backend(locs, rows@, backends@));
    proof {
        assert(plan.add@.len() == pa.len()) by {
            assert(crate::site::indices_view(plan.add@).len() == plan.add@.len());
        }
    }
    let mut additions: Vec<LocationAddition> = Vec::new();
    let mut k: usize = 0;
    while k < plan.add.len()
        invariant
            k <= plan.add@.len(),
            site_passes_check(*site),
            stored_has_site_id(stored),
            !update_meets_incomplete_backend(locs, rows@, backends@),
            locs == site.locations@,
            pa == planned_additions(locs, locs.len()),
            crate::site::indices_view(plan.add@) == pa,
            forall|q: int| 0 <= q < pa.len() ==> 0 <= #[trigger] pa[q] < locs.len(),
            additions@.len() == k,
            forall|q: int| 0 <= q < k ==> addition_matches(#[trigger] additions@[q], site_id, locs[pa[q]], now),
        decreases plan.add@.len() - k,
    {
        let i = plan.add[k];
        assert(pa[k as int] == i as int);
        let l = &site.locations[i];
        match added_location_backends(&l.upstream) {
            Err(e) => {
                assert(addition_has_bad_port(locs)) by {
                    assert(locs[pa[k as int]].upstream@.len() >= 0);
                }
                return Err(e);
            }
            Ok(bs) => {
                let row = location_row(site_id, l, now);
                additions.push(LocationAddition { row, backends: bs });
            }
        }
        k = k + 1;
    }
    assert(!addition_has_bad_port(locs)) by {
        if addition_has_bad_port(locs) {
            let q = choose|q: int| 0 <= q < pa.len() && (#[trigger] locs[pa[q]]).upstream@.len() >= 0
                && new_location_backends(locs[pa[q]].upstream@, locs[pa[q]].upstream@.len()) is Err;
            assert(addition_matches(additions@[q], site_id, locs[pa[q]], now));
        }
    }
    let site_row = updated_site_row(stored_row, site, now);
    Ok(SiteUpdate { site_row, updates, additions, delete_location_ids: plan.delete_ids })
}

} // verus!

verus! {

/// The row of a site to add at `now`, once the site passes the check.
pub fn plan_site_creation(site: &Site, now: i64) -> (r: Result<TbSite, SiteError>)
    ensures
        r is Ok <==> site_passes_check(*site),
        r matches Err(e) ==> (e is LocationEmpty || e is BackendsEmpty),
        site.locations@.len() == 0 ==> r == Err::<TbSite, SiteError>(SiteError::LocationEmpty),
        r matches Ok(row) ==> {
            &&& site_columns_match(row, *site)
            &&& row.id is None
            &&& row.name == Some(site.name)
            &&& row.gmt_create == Some(now)
            &&& row.gmt_modified == Some(now)
        },
{
    match check_site(site) {
        Err(e) => {
            assert(e is LocationEmpty || e is BackendsEmpty);
            Err(e)
        }
        Ok(()) => Ok(crate::site_rows::site_row(site, now)),
    }
}

/// The rows of the locations of a site added with id `site_id`, each with
/// the distinct backends that its upstream names.
pub fn new_site_locations(site: &Site, site_id: i64, now: i64) -> (r: Vec<(TbLocation, Vec<(String, u16)>)>)
    ensures
        r@.len() == site.locations@.len(),
        forall|i: int| 0 <= i < r@.len() ==> {
            let l = site.locations@[i];
            let e = #[trigger] r@[i];
            &&& location_columns_match(e.0, l)
            &&& e.0.id is None
            &&& e.0.site_id == Some(site_id)
            &&& e.0.gmt_create == Some(now)
            &&& e.0.gmt_modified == Some(now)
            &&& pairs_view(e.1@) == first_backends(l.upstream@, l.upstream@.len())
        },
{
    let mut r: Vec<(TbLocation, Vec<(String, u16)>)> = Vec::new();
    let mut i: usize = 0;
    while i < site.locations.len()
        invariant
            i <= site.locations@.len(),
            r@.len() == i,
            forall|q: int| 0 <= q < i ==> {
                let l = site.locations@[q];
                let e = #[trigger] r@[q];
                &&& location_columns_match(e.0, l)
                &&& e.0.id is None
                &&& e.0.site_id == Some(site_id)
                &&& e.0.gmt_create == Some(now)
                &&& e.0.gmt_modified == Some(now)
                &&& pairs_view(e.1@) == first_backends(l.upstream@, l.upstream@.len())
            },
        decreases site.locations@.len() - i,
    {
        let l = &site.locations[i];
        let row = location_row(site_id, l, now);
        let bs = parse_upstreams(&l.upstream);
        r.push((row, bs));
        i = i + 1;
    }
    r
}

} // verus!
