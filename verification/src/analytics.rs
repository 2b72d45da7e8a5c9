//! Traffic analytics: counters merged from gateway reports, per-period
//! totals, the series shown to users, and the periodic aggregation tasks.

use vstd::prelude::*;
use crate::records::{TbAnalyticsTraffic, TbAnalyticsTrafficCluster, TbTask};
use crate::site_rows::{checked_timestamp, timestamp_in_range};
use crate::text::{concat, text_eq};

verus! {

// ---------------------------------------------------------------------
// Named counters (countries, status codes, sources)
// ---------------------------------------------------------------------

/// No name occurs twice.
pub open spec fn distinct_keys(v: Seq<(String, u64)>) -> bool {
    forall|i: int, j: int| 0 <= i < j < v.len() ==> v[i].0@ != v[j].0@
}

/// Some counter has the name `k`.
pub open spec fn has_key(v: Seq<(String, u64)>, k: Seq<char>) -> bool {
    exists|i: int| 0 <= i < v.len() && (#[trigger] v[i]).0@ == k
}

/// The value of the counter named `k` (meaningful when there is one).
pub open spec fn value_of(v: Seq<(String, u64)>, k: Seq<char>) -> u64 {
    v[choose|i: int| 0 <= i < v.len() && (#[trigger] v[i]).0@ == k].1
}

/// A counter after a report is merged in: a name the report does not give
/// keeps its value; a name it gives adds the reported value to the counter,
/// and a new name starts at twice the reported value (the entry is inserted
/// with the value, and the value is then added to it).
pub open spec fn merged_value(old: Seq<(String, u64)>, report: Seq<(String, u64)>, k: Seq<char>) -> int {
    if has_key(report, k) {
        if has_key(old, k) {
            value_of(old, k) + value_of(report, k)
        } else {
            2 * value_of(report, k)
        }
    } else {
        value_of(old, k) as int
    }
}

pub proof fn lemma_value_of_at(v: Seq<(String, u64)>, i: int)
    requires
        distinct_keys(v),
        0 <= i < v.len(),
    ensures
        has_key(v, v[i].0@),
        value_of(v, v[i].0@) == v[i].1,
{
    let k = v[i].0@;
    assert(v[i].0@ == k);
    let j = choose|j: int| 0 <= j < v.len() && (#[trigger] v[j]).0@ == k;
    if j != i {
        if j < i {
            assert(v[j].0@ != v[i].0@);
        } else {
            assert(v[i].0@ != v[j].0@);
        }
    }
}

fn find_key(v: &Vec<(String, u64)>, k: &String) -> (r: Option<usize>)
    ensures
        r matches Some(i) ==> i < v@.len() && v@[i as int].0@ == k@,
        r is None ==> !has_key(v@, k@),
{
    let mut i: usize = 0;
    while i < v.len()
        invariant
            i <= v@.len(),
            forall|j: int| 0 <= j < i ==> (#[trigger] v@[j]).0@ != k@,
        decreases v@.len() - i,
    {
        if v[i].0 == *k {
            return Some(i);
        }
        i = i + 1;
    }
    None
}

/// Merges one gateway report into the counters, as `entry(k).or_insert(v) += v` does.
pub fn merge_counts(counts: &mut Vec<(String, u64)>, report: &Vec<(String, u64)>)
    requires
        distinct_keys(old(counts)@),
        distinct_keys(report@),
        forall|k: Seq<char>| has_key(report@, k) ==> #[trigger] merged_value(old(counts)@, report@, k) <= u64::MAX,
    ensures
        distinct_keys(final(counts)@),
        forall|k: Seq<char>| #[trigger] has_key(final(counts)@, k) <==> (has_key(old(counts)@, k) || has_key(report@, k)),
        forall|k: Seq<char>| #[trigger] has_key(final(counts)@, k) ==>
            value_of(final(counts)@, k) == merged_value(old(counts)@, report@, k),
{
    let ghost start = counts@;
    let mut i: usize = 0;
    while i < report.len()
        invariant
            i <= report@.len(),
            distinct_keys(report@),
            distinct_keys(start),
            forall|k: Seq<char>| has_key(report@, k) ==> #[trigger] merged_value(start, report@, k) <= u64::MAX,
            distinct_keys(counts@),
            forall|k: Seq<char>| #[trigger] has_key(counts@, k) <==> (has_key(start, k) || has_key(report@.take(i as int), k)),
            forall|k: Seq<char>| #[trigger] has_key(counts@, k) ==>
                value_of(counts@, k) == merged_value(start, report@.take(i as int), k),
        decreases report@.len() - i,
    {
        let ghost before = counts@;
        let ghost t0 = report@.take(i as int);
        let ghost t1 = report@.take(i + 1);
        let key = &report[i].0;
        let v: u64 = report[i].1;
        proof {
            lemma_value_of_at(report@, i as int);
            assert(t1[i as int] == report@[i as int]);
            lemma_value_of_at(t1, i as int);
            assert(!has_key(t0, key@)) by {
                if has_key(t0, key@) {
                    let j = choose|j: int| 0 <= j < t0.len() && (#[trigger] t0[j]).0@ == key@;
                    assert(report@[j].0@ != report@[i as int].0@);
                }
            }
            assert forall|k: Seq<char>| k != key@ implies (has_key(t1, k) <==> has_key(t0, k)) by {
                if has_key(t1, k) {
                    let j = choose|j: int| 0 <= j < t1.len() && (#[trigger] t1[j]).0@ == k;
                    assert(t0[j] == t1[j]);
                }
                if has_key(t0, k) {
                    let j = choose|j: int| 0 <= j < t0.len() && (#[trigger] t0[j]).0@ == k;
                    assert(t1[j] == t0[j]);
                }
            }
            assert forall|k: Seq<char>| k != key@ && has_key(t0, k) implies value_of(t1, k) == value_of(t0, k) by {
                let j = choose|j: int| 0 <= j < t0.len() && (#[trigger] t0[j]).0@ == k;
                assert(t1[j] == t0[j]);
                assert(distinct_keys(t0));
                assert(distinct_keys(t1));
                lemma_value_of_at(t0, j);
                lemma_value_of_at(t1, j);
            }
        }
        match find_key(counts, key) {
            Some(p) => {
                let c: u64 = counts[p].1;
                proof {
                    lemma_value_of_at(before, p as int);
                    assert(has_key(start, key@)) by {
                        assert(has_key(before, key@));
                    }
                    assert(has_key(report@, key@));
                    assert(value_of(report@, key@) == v);
                    assert(merged_value(start, report@, key@) == value_of(start, key@) + v);
                    assert(merged_value(start, t0, key@) == value_of(start, key@));
                }
                let name = counts[p].0.clone();
                counts.set(p, (name, c + v));
                proof {
                    lemma_value_of_at(counts@, p as int);
                }
            }
            None => {
                proof {
                    assert(!has_key(start, key@));
                    assert(has_key(report@, key@));
                    assert(merged_value(start, report@, key@) == 2 * v);
                }
                counts.push((key.clone(), v * 2));
                proof {
                    lemma_value_of_at(counts@, counts@.len() - 1);
                }
            }
        }
        proof {
            assert forall|a: int, b: int| 0 <= a < b < counts@.len() implies counts@[a].0@ != counts@[b].0@ by {
                if b < before.len() {
                    assert(counts@[a].0@ == before[a].0@);
                    assert(counts@[b].0@ == before[b].0@);
                } else if a < before.len() {
                    assert(counts@[a].0@ == before[a].0@);
                    assert(!has_key(before, key@));
                }
            }
            assert forall|k: Seq<char>| #[trigger] has_key(counts@, k) <==> (has_key(start, k) || has_key(t1, k)) by {
                if k == key@ {
                    assert(has_key(t1, k));
                    let w = choose|w: int| 0 <= w < counts@.len() && counts@[w].0@ == key@;
                    assert(has_key(counts@, k));
                } else {
                    if has_key(counts@, k) {
                        let j = choose|j: int| 0 <= j < counts@.len() && (#[trigger] counts@[j]).0@ == k;
                        assert(j < before.len());
                        assert(before[j].0@ == k);
                    }
                    if has_key(before, k) {
                        let j = choose|j: int| 0 <= j < before.len() && (#[trigger] before[j]).0@ == k;
                        assert(counts@[j].0@ == k);
                    }
                }
            }
            assert forall|k: Seq<char>| #[trigger] has_key(counts@, k) implies
                value_of(counts@, k) == merged_value(start, t1, k) by {
                if k != key@ {
                    let j = choose|j: int| 0 <= j < counts@.len() && (#[trigger] counts@[j]).0@ == k;
                    assert(j < before.len());
                    assert(counts@[j] == before[j]);
                    lemma_value_of_at(counts@, j);
                    lemma_value_of_at(before, j);
                    assert(has_key(before, k));
                }
            }
        }
        i = i + 1;
    }
    proof {
        assert(report@.take(report@.len() as int) =~= report@);
    }
}

} // verus!

verus! {

/// The full name of a country code in the table, if the table has the code.
pub open spec fn country_name(table: Seq<(String, String)>, code: Seq<char>) -> Option<Seq<char>> {
    if exists|i: int| 0 <= i < table.len() && (#[trigger] table[i]).0@ == code {
        Some(table[choose|i: int| 0 <= i < table.len() && (#[trigger] table[i]).0@ == code].1@)
    } else {
        None
    }
}

/// Country counters renamed by the table: each counter whose code the table
/// knows is kept under the country's name, in order; the others are dropped.
pub open spec fn renamed_countries(counts: Seq<(String, u64)>, table: Seq<(String, String)>, n: nat) -> Seq<(Seq<char>, u64)>
    decreases n,
{
    if n == 0 {
        Seq::empty()
    } else {
        let prev = renamed_countries(counts, table, (n - 1) as nat);
        match country_name(table, counts[n - 1].0@) {
            Some(name) => prev.push((name, counts[n - 1].1)),
            None => prev,
        }
    }
}

pub open spec fn entries_view(v: Seq<(String, u64)>) -> Seq<(Seq<char>, u64)> {
    Seq::new(v.len(), |i: int| (v[i].0@, v[i].1))
}

/// Replaces country codes by country names, after the table of ISO 3166 codes.
pub fn rename_countries(counts: &Vec<(String, u64)>, table: &Vec<(String, String)>) -> (r: Vec<(String, u64)>)
    requires
        forall|i: int, j: int| 0 <= i < j < table@.len() ==> table@[i].0@ != table@[j].0@,
    ensures
        entries_view(r@) == renamed_countries(counts@, table@, counts@.len()),
{
    let mut r: Vec<(String, u64)> = Vec::new();
    let mut i: usize = 0;
    while i < counts.len()
        invariant
            i <= counts@.len(),
            forall|a: int, b: int| 0 <= a < b < table@.len() ==> table@[a].0@ != table@[b].0@,
            entries_view(r@) == renamed_countries(counts@, table@, i as nat),
        decreases counts@.len() - i,
    {
        let ghost before = entries_view(r@);
        let code = &counts[i].0;
        let mut j: usize = 0;
        let mut found: Option<usize> = None;
        while j < table.len()
            invariant
                j <= table@.len(),
                found is None ==> forall|m: int| 0 <= m < j ==> (#[trigger] table@[m]).0@ != code@,
                found matches Some(m) ==> m < table@.len() && table@[m as int].0@ == code@,
            decreases table@.len() - j,
        {
            if found.is_none() && table[j].0 == *code {
                found = Some(j);
            }
            j = j + 1;
        }
        match found {
            Some(m) => {
                proof {
                    let w = choose|w: int| 0 <= w < table@.len() && (#[trigger] table@[w]).0@ == code@;
                    if w != m as int {
                        if w < m as int {
                            assert(table@[w].0@ != table@[m as int].0@);
                        } else {
                            assert(table@[m as int].0@ != table@[w].0@);
                        }
                    }
                }
                r.push((table[m].1.clone(), counts[i].1));
                assert(entries_view(r@) =~= before.push((table@[m as int].1@, counts@[i as int].1)));
            }
            None => {}
        }
        i = i + 1;
    }
    r
}

/// The counters that a JSON object of names and counts holds, as `serde_json`
/// reads it into a `BTreeMap<String, u64>` and the map gives its entries back;
/// none when the text is not such an object.
pub uninterp spec fn json_counts(text: Seq<char>) -> Option<Seq<(Seq<char>, u64)>>;

/// `serde_json::from_str` into a `BTreeMap<String, u64>`, and the map's
/// entries. A map holds each name once.
#[verifier::external_body]
fn parse_counts(text: &str) -> (r: Option<Vec<(String, u64)>>)
    ensures
        (match r {
            Some(v) => Some(entries_view(v@)),
            None => None,
        }) == json_counts(text@),
        r matches Some(v) ==> distinct_keys(v@),
{
    match serde_json::from_str::<std::collections::BTreeMap<String, u64>>(text) {
        Ok(m) => Some(m.into_iter().collect()),
        Err(_) => None,
    }
}

/// The counters kept in a row's JSON column: none when the column is empty
/// or does not hold an object of counts.
pub fn counts_of(json: &Option<String>) -> (r: Vec<(String, u64)>)
    ensures
        distinct_keys(r@),
        json is None ==> r@.len() == 0,
        json matches Some(t) ==> match json_counts(t@) {
            Some(c) => entries_view(r@) == c,
            None => r@.len() == 0,
        },
{
    match json {
        None => Vec::new(),
        Some(t) => match parse_counts(t.as_str()) {
            Some(v) => v,
            None => Vec::new(),
        },
    }
}

/// The JSON object of the counters, as `serde_json` writes a
/// `BTreeMap<&str, u64>` of them.
pub uninterp spec fn json_of_counts(entries: Seq<(Seq<char>, u64)>) -> Seq<char>;

/// `serde_json::to_string` of the counters gathered in a `BTreeMap<&str, u64>`.
/// Writing a map of texts to numbers into memory cannot fail.
#[verifier::external_body]
fn write_counts(v: &Vec<(String, u64)>) -> (r: String)
    ensures
        r@ == json_of_counts(entries_view(v@)),
{
    let m: std::collections::BTreeMap<&str, u64> = v.iter().map(|e| (e.0.as_str(), e.1)).collect();
    serde_json::to_string(&m).unwrap_or_default()
}

/// The counters as the JSON text a row keeps of them.
pub fn counts_json(v: &Vec<(String, u64)>) -> (r: Option<String>)
    ensures
        r matches Some(t) && t@ == json_of_counts(entries_view(v@)),
{
    Some(write_counts(v))
}

// ---------------------------------------------------------------------
// Traffic series
// ---------------------------------------------------------------------

/// Requests in a period: those over TLS, and all of them.
pub struct AnalyticsTrafficItem {
    pub time: String,
    pub tls: u64,
    pub pv: u64,
}

/// A stored traffic row as the series reads it: the label of its period
/// (when its time can be written), and its counters.
pub struct TrafficRow {
    pub label: Option<String>,
    pub tls: Option<u64>,
    pub pv: Option<u64>,
}

pub open spec fn or_zero(v: Option<u64>) -> nat {
    match v {
        Some(x) => x as nat,
        None => 0,
    }
}

pub open spec fn item_view(i: AnalyticsTrafficItem) -> (Seq<char>, nat, nat) {
    (i.time@, i.tls as nat, i.pv as nat)
}

pub open spec fn items_view(v: Seq<AnalyticsTrafficItem>) -> Seq<(Seq<char>, nat, nat)> {
    Seq::new(v.len(), |i: int| item_view(v[i]))
}

/// The latest rows of a cluster as a series, oldest first (rows come newest
/// first): a row without label is shown at `-`, a missing counter as zero.
pub open spec fn latest_series(rows: Seq<TrafficRow>) -> Seq<(Seq<char>, nat, nat)> {
    Seq::new(rows.len(), |i: int| {
        let r = rows[rows.len() - 1 - i];
        (match r.label { Some(l) => l@, None => "-"@ }, or_zero(r.tls), or_zero(r.pv))
    })
}

/// The latest traffic of a cluster, oldest first.
pub fn latest_traffic(rows: &Vec<TrafficRow>) -> (r: Vec<AnalyticsTrafficItem>)
    ensures
        items_view(r@) == latest_series(rows@),
{
    let mut r: Vec<AnalyticsTrafficItem> = Vec::new();
    let mut k: usize = rows.len();
    while k > 0
        invariant
            k <= rows@.len(),
            r@.len() == rows@.len() - k,
            forall|i: int| 0 <= i < r@.len() ==> #[trigger] item_view(r@[i]) == latest_series(rows@)[i],
        decreases k,
    {
        k = k - 1;
        let row = &rows[k];
        let time = match &row.label {
            Some(l) => l.clone(),
            None => "-".to_string(),
        };
        let tls: u64 = match row.tls { Some(x) => x, None => 0 };
        let pv: u64 = match row.pv { Some(x) => x, None => 0 };
        let ghost idx = r@.len();
        r.push(AnalyticsTrafficItem { time, tls, pv });
        proof {
            assert(rows@.len() - 1 - idx == k);
            if row.label is None {
                reveal_strlit("-");
            }
            assert(item_view(r@[idx as int]) == latest_series(rows@)[idx as int]);
        }
    }
    assert(items_view(r@) =~= latest_series(rows@));
    r
}

/// The index of the period labelled `l` in the series so far, or -1.
pub open spec fn label_index(s: Seq<(Seq<char>, nat, nat)>, l: Seq<char>) -> int
    decreases s.len(),
{
    if s.len() == 0 {
        -1
    } else if s.last().0 == l {
        s.len() - 1
    } else {
        label_index(s.drop_last(), l)
    }
}

/// The series of the first `n` rows, one entry per label in the order the
/// labels first occur, with the counters of its rows summed; rows without
/// label are left out.
pub open spec fn grouped_series(rows: Seq<TrafficRow>, n: nat) -> Seq<(Seq<char>, nat, nat)>
    decreases n,
{
    if n == 0 {
        Seq::empty()
    } else {
        let prev = grouped_series(rows, (n - 1) as nat);
        let r = rows[n - 1];
        match r.label {
            None => prev,
            Some(l) => {
                let k = label_index(prev, l@);
                if k < 0 {
                    prev.push((l@, or_zero(r.tls), or_zero(r.pv)))
                } else {
                    prev.update(k, (l@, prev[k].1 + or_zero(r.tls), prev[k].2 + or_zero(r.pv)))
                }
            }
        }
    }
}

proof fn lemma_label_index(s: Seq<(Seq<char>, nat, nat)>, l: Seq<char>)
    ensures
        -1 <= label_index(s, l) < s.len(),
        label_index(s, l) >= 0 ==> s[label_index(s, l)].0 == l,
        label_index(s, l) < 0 ==> forall|i: int| 0 <= i < s.len() ==> (#[trigger] s[i]).0 != l,
    decreases s.len(),
{
    if s.len() > 0 {
        lemma_label_index(s.drop_last(), l);
        if s.last().0 != l && label_index(s, l) < 0 {
            assert forall|i: int| 0 <= i < s.len() implies (#[trigger] s[i]).0 != l by {
                if i < s.len() - 1 {
                    assert(s[i] == s.drop_last()[i]);
                }
            }
        }
    }
}

proof fn lemma_label_index_unique(s: Seq<(Seq<char>, nat, nat)>, l: Seq<char>, i: int)
    requires
        0 <= i < s.len(),
        s[i].0 == l,
        forall|a: int, b: int| 0 <= a < b < s.len() ==> s[a].0 != s[b].0,
    ensures
        label_index(s, l) == i,
    decreases s.len(),
{
    if i < s.len() - 1 {
        assert(s.last().0 != l);
        assert(s.drop_last()[i] == s[i]);
        lemma_label_index_unique(s.drop_last(), l, i);
    }
}

/// The requests over TLS, and all requests, of the first `n` rows that have a label.
pub open spec fn labelled_sums(rows: Seq<TrafficRow>, n: nat) -> (nat, nat)
    decreases n,
{
    if n == 0 {
        (0, 0)
    } else {
        let prev = labelled_sums(rows, (n - 1) as nat);
        match rows[n - 1].label {
            Some(_) => (prev.0 + or_zero(rows[n - 1].tls), prev.1 + or_zero(rows[n - 1].pv)),
            None => prev,
        }
    }
}

/// The sums of the series' counters over its first `n` periods.
pub open spec fn series_sums(s: Seq<(Seq<char>, nat, nat)>, n: nat) -> (nat, nat)
    decreases n,
{
    if n == 0 {
        (0, 0)
    } else {
        let prev = series_sums(s, (n - 1) as nat);
        (prev.0 + s[n - 1].1, prev.1 + s[n - 1].2)
    }
}

proof fn lemma_series_sums_update(s: Seq<(Seq<char>, nat, nat)>, k: int, e: (Seq<char>, nat, nat), n: nat)
    requires
        0 <= k < s.len(),
        n <= s.len(),
    ensures
        series_sums(s.update(k, e), n).0 == series_sums(s, n).0 + (if k < n { e.1 - s[k].1 } else { 0 }),
        series_sums(s.update(k, e), n).1 == series_sums(s, n).1 + (if k < n { e.2 - s[k].2 } else { 0 }),
    decreases n,
{
    if n > 0 {
        lemma_series_sums_update(s, k, e, (n - 1) as nat);
    }
}

proof fn lemma_series_sums_push(s: Seq<(Seq<char>, nat, nat)>, e: (Seq<char>, nat, nat), n: nat)
    requires
        n <= s.len(),
    ensures
        series_sums(s.push(e), n) == series_sums(s, n),
    decreases n,
{
    if n > 0 {
        lemma_series_sums_push(s, e, (n - 1) as nat);
    }
}

/// Grouping keeps every labelled request: the series' counters add up to
/// those of the labelled rows, and no two periods share a label.
pub proof fn lemma_grouping_keeps_totals(rows: Seq<TrafficRow>, n: nat)
    requires
        n <= rows.len(),
    ensures
        series_sums(grouped_series(rows, n), grouped_series(rows, n).len()) == labelled_sums(rows, n),
        forall|a: int, b: int| 0 <= a < b < grouped_series(rows, n).len() ==>
            grouped_series(rows, n)[a].0 != grouped_series(rows, n)[b].0,
    decreases n,
{
    if n > 0 {
        lemma_grouping_keeps_totals(rows, (n - 1) as nat);
        let prev = grouped_series(rows, (n - 1) as nat);
        let r = rows[n - 1];
        match r.label {
            None => {},
            Some(l) => {
                lemma_label_index(prev, l@);
                let k = label_index(prev, l@);
                let cur = grouped_series(rows, n);
                if k < 0 {
                    let e = (l@, or_zero(r.tls), or_zero(r.pv));
                    lemma_series_sums_push(prev, e, prev.len());
                    assert(cur == prev.push(e));
                    assert(series_sums(cur, cur.len()) == (series_sums(cur, prev.len()).0 + e.1, series_sums(cur, prev.len()).1 + e.2));
                } else {
                    let e = (l@, prev[k].1 + or_zero(r.tls), prev[k].2 + or_zero(r.pv));
                    lemma_series_sums_update(prev, k, e, prev.len());
                    assert(cur == prev.update(k, e));
                }
            }
        }
    }
}

fn find_label(series: &Vec<AnalyticsTrafficItem>, l: &String) -> (r: Option<usize>)
    ensures
        r matches Some(k) ==> k < series@.len() && series@[k as int].time@ == l@,
        r is None ==> forall|i: int| 0 <= i < series@.len() ==> (#[trigger] series@[i]).time@ != l@,
{
    let mut i: usize = 0;
    while i < series.len()
        invariant
            i <= series@.len(),
            forall|j: int| 0 <= j < i ==> (#[trigger] series@[j]).time@ != l@,
        decreases series@.len() - i,
    {
        if series[i].time == *l {
            return Some(i);
        }
        i = i + 1;
    }
    None
}

/// Each period's summed counters fit a `u64`.
pub open spec fn periods_fit(s: Seq<(Seq<char>, nat, nat)>) -> bool {
    forall|k: int| 0 <= k < s.len() ==> (#[trigger] s[k]).1 <= u64::MAX && s[k].2 <= u64::MAX
}

/// As rows are added, the periods seen so far keep their place and label,
/// and their counters only grow.
proof fn lemma_grouped_grows(rows: Seq<TrafficRow>, i: nat, n: nat)
    requires
        i <= n <= rows.len(),
    ensures
        grouped_series(rows, i).len() <= grouped_series(rows, n).len(),
        forall|k: int| 0 <= k < grouped_series(rows, i).len() ==> {
            &&& (#[trigger] grouped_series(rows, i)[k]).0 == grouped_series(rows, n)[k].0
            &&& grouped_series(rows, i)[k].1 <= grouped_series(rows, n)[k].1
            &&& grouped_series(rows, i)[k].2 <= grouped_series(rows, n)[k].2
        },
    decreases n - i,
{
    if i < n {
        lemma_grouped_grows(rows, i, (n - 1) as nat);
        let prev = grouped_series(rows, (n - 1) as nat);
        let cur = grouped_series(rows, n);
        let r = rows[n - 1];
        match r.label {
            None => {},
            Some(l) => {
                lemma_label_index(prev, l@);
                let k = label_index(prev, l@);
                if k < 0 {
                    assert(cur == prev.push((l@, or_zero(r.tls), or_zero(r.pv))));
                    assert forall|j: int| 0 <= j < prev.len() implies #[trigger] cur[j] == prev[j] by {}
                } else {
                    assert(cur == prev.update(k, (l@, prev[k].1 + or_zero(r.tls), prev[k].2 + or_zero(r.pv))));
                }
            }
        }
    }
}

/// The traffic of a day (by hour) or of a month (by day), newest period
/// first: the rows' counters summed per period label, the periods in
/// reverse order of first occurrence. Each period's sums fit a `u64`.
pub fn group_traffic(rows: &Vec<TrafficRow>) -> (r: Vec<AnalyticsTrafficItem>)
    requires
        periods_fit(grouped_series(rows@, rows@.len())),
    ensures
        items_view(r@) == grouped_series(rows@, rows@.len()).reverse(),
{
    let mut series: Vec<AnalyticsTrafficItem> = Vec::new();
    let mut i: usize = 0;
    while i < rows.len()
        invariant
            i <= rows@.len(),
            periods_fit(grouped_series(rows@, rows@.len())),
            items_view(series@) == grouped_series(rows@, i as nat),
        decreases rows@.len() - i,
    {
        proof {
            lemma_grouping_keeps_totals(rows@, i as nat);
            lemma_grouped_grows(rows@, (i + 1) as nat, rows@.len());
        }
        let row = &rows[i];
        let ghost prev = items_view(series@);
        match &row.label {
            None => {}
            Some(l) => {
                let tls: u64 = match row.tls { Some(x) => x, None => 0 };
                let pv: u64 = match row.pv { Some(x) => x, None => 0 };
                match find_label(&series, l) {
                    Some(k) => {
                        proof {
                            assert(prev[k as int].0 == l@);
                            lemma_label_index_unique(prev, l@, k as int);
                            let next = grouped_series(rows@, (i + 1) as nat);
                            assert(next == prev.update(k as int, (l@, prev[k as int].1 + or_zero(row.tls), prev[k as int].2 + or_zero(row.pv))));
                            assert(next[k as int].1 <= u64::MAX && next[k as int].2 <= u64::MAX) by {
                                assert(grouped_series(rows@, rows@.len())[k as int].1 <= u64::MAX);
                            }
                        }
                        let t = series[k].tls + tls;
                        let p = series[k].pv + pv;
                        let name = series[k].time.clone();
                        series.set(k, AnalyticsTrafficItem { time: name, tls: t, pv: p });
                        assert(items_view(series@) =~= prev.update(k as int, (l@, prev[k as int].1 + or_zero(row.tls), prev[k as int].2 + or_zero(row.pv))));
                    }
                    None => {
                        proof {
                            lemma_label_index(prev, l@);
                            if label_index(prev, l@) >= 0 {
                                assert(prev[label_index(prev, l@)].0 == l@);
                                assert(series@[label_index(prev, l@)].time@ == l@);
                            }
                            let next = grouped_series(rows@, (i + 1) as nat);
                            assert(next == prev.push((l@, or_zero(row.tls), or_zero(row.pv))));
                            assert(next[prev.len() as int].1 <= u64::MAX) by {
                                assert(grouped_series(rows@, rows@.len())[prev.len() as int].1 <= u64::MAX);
                            }
                        }
                        series.push(AnalyticsTrafficItem { time: l.clone(), tls, pv });
                        assert(items_view(series@) =~= prev.push((l@, or_zero(row.tls), or_zero(row.pv))));
                    }
                }
            }
        }
        i = i + 1;
    }
    let mut r: Vec<AnalyticsTrafficItem> = Vec::new();
    let ghost g = items_view(series@);
    assert(g.take(g.len() as int) =~= g);
    assert(g.skip(g.len() as int).reverse() =~= Seq::<(Seq<char>, nat, nat)>::empty());
    while series.len() > 0
        invariant
            items_view(series@) == g.take(series@.len() as int),
            series@.len() <= g.len(),
            items_view(r@) == g.skip(series@.len() as int).reverse(),
        decreases series@.len(),
    {
        let ghost before = items_view(series@);
        let ghost old_r = items_view(r@);
        let ghost m = series@.len();
        let item = series.pop().unwrap();
        proof {
            assert(items_view(series@) =~= before.drop_last());
            assert(before[m - 1] == item_view(item));
            assert(g[m - 1] == before[m - 1]);
        }
        r.push(item);
        proof {
            assert(items_view(r@) =~= old_r.push(item_view(item)));
            assert(items_view(series@) =~= g.take(series@.len() as int));
            assert(g.skip(m - 1) =~= seq![g[m - 1]] + g.skip(m as int));
            assert(g.skip(m - 1).reverse() =~= g.skip(m as int).reverse().push(g[m - 1]));
        }
        assert(items_view(r@) =~= g.skip(series@.len() as int).reverse());
    }
    r
}

} // verus!

verus! {

// ---------------------------------------------------------------------
// Per-period totals
// ---------------------------------------------------------------------

/// The requests of a period: over TLS, all, and the named counters.
pub struct TrafficItem {
    pub tls: u64,
    pub pv: u64,
    pub ext_info: ExtInfo,
}

/// Requests counted by country, by status code and by source.
pub struct ExtInfo {
    pub http_country: Vec<(String, u64)>,
    pub http_code: Vec<(String, u64)>,
    pub http_source: Vec<(String, u64)>,
}

impl ExtInfo {
    pub fn new() -> (r: Self)
        ensures
            r.http_country@.len() == 0,
            r.http_code@.len() == 0,
            r.http_source@.len() == 0,
    {
        ExtInfo { http_country: Vec::new(), http_code: Vec::new(), http_source: Vec::new() }
    }
}

impl TrafficItem {
    pub fn new() -> (r: Self)
        ensures
            r.tls == 0,
            r.pv == 0,
            r.ext_info.http_country@.len() == 0,
            r.ext_info.http_code@.len() == 0,
            r.ext_info.http_source@.len() == 0,
    {
        TrafficItem { tls: 0, pv: 0, ext_info: ExtInfo::new() }
    }

    /// Adds a row's counters; a missing counter counts zero.
    pub fn add_counters(&mut self, tls: Option<u64>, pv: Option<u64>)
        requires
            old(self).tls + or_zero(tls) <= u64::MAX,
            old(self).pv + or_zero(pv) <= u64::MAX,
        ensures
            final(self).tls == old(self).tls + or_zero(tls),
            final(self).pv == old(self).pv + or_zero(pv),
            final(self).ext_info == old(self).ext_info,
    {
        self.tls = self.tls + match tls { Some(x) => x, None => 0 };
        self.pv = self.pv + match pv { Some(x) => x, None => 0 };
    }
}

// ---------------------------------------------------------------------
// Aggregation tasks
// ---------------------------------------------------------------------

/// The type of the per-minute aggregation task.
pub const MINUTE_TASK: u32 = 1;

/// The type of the per-hour aggregation task.
pub const HOUR_TASK: u32 = 2;

/// A periodic aggregation: its name, its type, and the end (Unix seconds) of
/// the last period it has aggregated.
pub struct Task {
    pub name: String,
    pub task_type: u32,
    pub end_time: i64,
}

/// Where a task starts when it has never run: one minute before `now` for
/// the per-minute task, one hour before for any other.
pub open spec fn initial_end_time(task_type: u32, now: i64) -> int {
    if task_type == 1 { now - 60 } else { now - 3600 }
}

/// The row of a task that has never run, created at `now`.
pub fn new_task_row(name: &str, task_type: u32, now: i64) -> (r: TbTask)
    requires
        now >= i64::MIN + 3600,
    ensures
        r.id is None,
        r.name matches Some(n) && n@ == name@,
        r.task_type == Some(task_type as i32),
        r.last_time == Some(if timestamp_in_range(initial_end_time(task_type, now) as i64) {
            initial_end_time(task_type, now) as i64
        } else {
            0i64
        }),
        r.gmt_create == Some(now),
        r.gmt_modified == Some(now),
{
    let end: i64 = if task_type == 1 { now - 60 } else { now - 3600 };
    let last: i64 = match checked_timestamp(end) {
        Some(v) => v,
        None => 0,
    };
    TbTask {
        id: None,
        name: Some(name.to_owned()),
        task_type: Some(task_type as i32),
        last_time: Some(last),
        gmt_create: Some(now),
        gmt_modified: Some(now),
    }
}

/// The task that a stored row describes; a missing or unreadable end time
/// reads as one minute before `now`.
pub fn task_from_row(row: &TbTask, now: i64) -> (t: Task)
    requires
        now >= i64::MIN + 60,
    ensures
        t.name@ == (match row.name { Some(n) => n@, None => Seq::empty() }),
        t.task_type == (match row.task_type { Some(i) => i as u32, None => 0u32 }),
        t.end_time == (match row.last_time {
            Some(x) => if timestamp_in_range(x) { x as int } else { now - 60 },
            None => now - 60,
        }),
{
    let name = match &row.name {
        Some(n) => n.clone(),
        None => String::new(),
    };
    let task_type: u32 = match row.task_type { Some(i) => i as u32, None => 0u32 };
    let end_time: i64 = match row.last_time {
        Some(x) => match checked_timestamp(x) {
            Some(v) => v,
            None => now - 60,
        },
        None => now - 60,
    };
    Task { name, task_type, end_time }
}

/// The row that records how far a task has come, written at `now`.
pub fn task_progress_row(task: &Task, now: i64) -> (r: TbTask)
    ensures
        r.id is None,
        r.name is None,
        r.task_type is None,
        r.gmt_create is None,
        r.last_time == Some(if timestamp_in_range(task.end_time) { task.end_time } else { 0i64 }),
        r.gmt_modified == Some(now),
{
    let last: i64 = match checked_timestamp(task.end_time) {
        Some(v) => v,
        None => 0,
    };
    TbTask { id: None, name: None, task_type: None, last_time: Some(last), gmt_create: None, gmt_modified: Some(now) }
}

/// The name of a cluster's aggregation task and of its lock: the prefix,
/// then the cluster's name.
pub fn task_key(prefix: &str, cluster: &str) -> (r: String)
    ensures
        r@ == prefix@ + cluster@,
{
    concat(prefix, cluster)
}

/// The next period a task aggregates, after the period ending at
/// `end_time`: the `step` seconds that follow, when they end before `now`.
pub fn next_window(end_time: i64, step: i64, now: i64) -> (r: Option<(i64, i64)>)
    requires
        step > 0,
        end_time + step <= i64::MAX,
    ensures
        end_time + step < now ==> r == Some((end_time, (end_time + step) as i64)),
        end_time + step >= now ==> r is None,
{
    let next = end_time + step;
    if next < now {
        Some((end_time, next))
    } else {
        None
    }
}

/// What one aggregation step stores.
#[derive(PartialEq, Eq, Structural, Clone, Copy, Debug)]
pub struct SavePlan {
    pub save_monitor: bool,
    pub save_traffic: bool,
    pub update_task: bool,
}

/// The per-minute step stores the gateways' averages when there were
/// reports, the traffic when it was counted, and always moves the task on.
pub fn minute_save_plan(has_monitor: bool, monitor_size: usize, has_traffic: bool) -> (r: SavePlan)
    ensures
        r.save_monitor == (has_monitor && monitor_size > 0),
        r.save_traffic == has_traffic,
        r.update_task,
{
    SavePlan { save_monitor: has_monitor && monitor_size > 0, save_traffic: has_traffic, update_task: true }
}

/// The per-hour step stores nothing, and leaves the task where it was, when
/// no gateway reported; else as the per-minute step.
pub fn hour_save_plan(has_monitor: bool, monitor_size: usize, has_traffic: bool) -> (r: SavePlan)
    ensures
        monitor_size == 0 ==> r == (SavePlan { save_monitor: false, save_traffic: false, update_task: false }),
        monitor_size > 0 ==> r == (SavePlan { save_monitor: has_monitor, save_traffic: has_traffic, update_task: true }),
{
    if monitor_size == 0 {
        return SavePlan { save_monitor: false, save_traffic: false, update_task: false };
    }
    SavePlan { save_monitor: has_monitor, save_traffic: has_traffic, update_task: true }
}

/// The mean of an integer counter over the reports of a period.
pub fn mean(total: u64, reports: usize) -> (r: u64)
    requires
        reports > 0,
    ensures
        r == total / (reports as u64),
{
    total / (reports as u64)
}

} // verus!

verus! {

/// The row of one gateway's traffic report received at `now`; the named
/// counters are kept as the JSON texts they were read back into.
pub fn traffic_report_row(
    cluster: String,
    ip: String,
    tls: u64,
    pv: u64,
    http_country: Option<String>,
    http_code: Option<String>,
    http_source: Option<String>,
    now: i64,
) -> (r: TbAnalyticsTraffic)
    ensures
        r.id is None,
        r.cluster_name == Some(cluster),
        r.ip == Some(ip),
        r.tls == Some(tls),
        r.pv == Some(pv),
        r.http_country == http_country,
        r.http_code == http_code,
        r.http_source == http_source,
        r.gmt_create == Some(now),
        r.gmt_modified == Some(now),
{
    TbAnalyticsTraffic {
        id: None,
        cluster_name: Some(cluster),
        ip: Some(ip),
        pv: Some(pv),
        tls: Some(tls),
        http_country,
        http_code,
        http_source,
        gmt_create: Some(now),
        gmt_modified: Some(now),
    }
}

/// The row of a cluster's traffic in the period that ends at `end_time`.
pub fn traffic_period_row(
    cluster: String,
    tls: u64,
    pv: u64,
    http_country: Option<String>,
    http_code: Option<String>,
    http_source: Option<String>,
    end_time: i64,
) -> (r: TbAnalyticsTrafficCluster)
    ensures
        r.id is None,
        r.cluster_name == Some(cluster),
        r.tls == Some(tls),
        r.pv == Some(pv),
        r.http_country == http_country,
        r.http_code == http_code,
        r.http_source == http_source,
        r.gmt_create == Some(end_time),
        r.gmt_modified == Some(end_time),
{
    TbAnalyticsTrafficCluster {
        id: None,
        cluster_name: Some(cluster),
        pv: Some(pv),
        tls: Some(tls),
        http_country,
        http_code,
        http_source,
        gmt_create: Some(end_time),
        gmt_modified: Some(end_time),
    }
}

} // verus!
