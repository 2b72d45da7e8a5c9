//! Change logs: the row that records a change, the logs a gateway is sent
//! when it connects, the frames passed between console peers, and which
//! peers and gateways a change goes to.

use vstd::prelude::*;
use crate::records::{TbChangeLog, TbConsole};
use crate::text::{concat, int_text, int_to_text, push_all};

verus! {

/// How far a gateway has read the logs of one type.
#[derive(Clone, Copy, Debug, PartialEq, Eq, Structural)]
pub struct LogPoint {
    pub log_type: u32,
    pub log_id: u64,
}

/// One change, as it is sent to gateways. Types and actions are carried by their codes.
pub struct ChangeLog {
    pub log_id: u64,
    pub cluster: String,
    pub log_type: u32,
    pub log_action: u32,
    pub data_id: u64,
    pub data: Vec<u8>,
}

/// A batch of changes sent to a gateway, with how far it then has read.
pub struct DataFrame {
    pub logs: Vec<ChangeLog>,
    pub log_point: Option<LogPoint>,
}

fn bytes_of(s: &Option<String>) -> (r: Vec<u8>)
    ensures
        r@ == (match s { Some(t) => vstd::utf8::encode_utf8(t@), None => Seq::empty() }),
{
    match s {
        Some(t) => vstd::slice::slice_to_vec(t.as_str().as_bytes()),
        None => Vec::new(),
    }
}

fn clone_opt(o: &Option<String>) -> (r: Option<String>)
    ensures
        r == *o,
{
    match o {
        Some(s) => Some(s.clone()),
        None => None,
    }
}

/// The row that records a change made at `now`; it expires after
/// `expire_second` seconds, or never for zero.
pub fn change_log_row(
    cluster: String,
    log_type: u32,
    log_action: u32,
    data_id: u64,
    expire_second: u32,
    data: Option<String>,
    now: i64,
) -> (r: TbChangeLog)
    ensures
        r.id is None,
        r.cluster_name == Some(cluster),
        r.log_type == Some(log_type as i32),
        r.log_action == Some(log_action as i32),
        r.data_id == Some(data_id as i64),
        r.data == data,
        r.expire_second == Some(expire_second as i32),
        r.gmt_create == Some(now),
        r.gmt_modified == Some(now),
{
    TbChangeLog {
        id: None,
        cluster_name: Some(cluster),
        log_type: Some(log_type as i32),
        log_action: Some(log_action as i32),
        data_id: Some(data_id as i64),
        data,
        expire_second: Some(expire_second as i32),
        gmt_create: Some(now),
        gmt_modified: Some(now),
    }
}

/// The change that a stored row records; a row without cluster belongs to the empty cluster.
pub open spec fn change_log_matches_row(c: ChangeLog, row: TbChangeLog, log_type: u32) -> bool {
    &&& c.log_id == row.id->0 as u64
    &&& c.cluster@ == (match row.cluster_name { Some(n) => n@, None => Seq::empty() })
    &&& c.log_type == log_type
    &&& c.log_action == row.log_action->0 as u32
    &&& c.data_id == row.data_id->0 as u64
    &&& c.data@ == (match row.data { Some(t) => vstd::utf8::encode_utf8(t@), None => Seq::empty() })
}

/// A change read from a stored row carries that row's id, cluster (none
/// gives the empty cluster), action, data id and data, with the type asked for.
pub proof fn lemma_change_carries_its_row(c: ChangeLog, row: TbChangeLog, log_type: u32)
    requires
        change_log_matches_row(c, row, log_type),
    ensures
        row.cluster_name matches Some(n) ==> c.cluster@ == n@,
        row.cluster_name is None ==> c.cluster@.len() == 0,
        c.log_id == row.id->0 as u64,
        c.log_type == log_type,
        c.log_action == row.log_action->0 as u32,
        c.data_id == row.data_id->0 as u64,
        row.data matches Some(d) ==> c.data@ == vstd::utf8::encode_utf8(d@),
        row.data is None ==> c.data@.len() == 0,
{
}

/// A change recorded as a row and read back is the same change: its
/// cluster, type, action and data id come back as they were recorded.
pub proof fn lemma_recorded_change_reads_back(
    cluster: String,
    log_type: u32,
    log_action: u32,
    data_id: u64,
    row: TbChangeLog,
    c: ChangeLog,
)
    requires
        row.cluster_name == Some(cluster),
        row.log_action == Some(log_action as i32),
        row.data_id == Some(data_id as i64),
        log_action <= i32::MAX,
        data_id <= i64::MAX,
        change_log_matches_row(c, row, log_type),
    ensures
        c.cluster@ == cluster@,
        c.log_type == log_type,
        c.log_action == log_action,
        c.data_id == data_id,
{
    assert(log_action <= i32::MAX ==> ((log_action as i32) as u32) == log_action) by (bit_vector);
    assert(data_id <= i64::MAX ==> ((data_id as i64) as u64) == data_id) by (bit_vector);
}

/// The change recorded by a stored row of the given type.
pub fn change_log_from_row(row: &TbChangeLog, log_type: u32) -> (c: ChangeLog)
    requires
        row.id is Some,
        row.log_action is Some,
        row.data_id is Some,
    ensures
        change_log_matches_row(c, *row, log_type),
{
    let cluster = match &row.cluster_name {
        Some(n) => n.clone(),
        None => String::new(),
    };
    ChangeLog {
        log_id: *row.id.as_ref().unwrap() as u64,
        cluster,
        log_type,
        log_action: *row.log_action.as_ref().unwrap() as u32,
        data_id: *row.data_id.as_ref().unwrap() as u64,
        data: bytes_of(&row.data),
    }
}

/// The changes recorded by a page of stored rows of one type, in order.
pub fn change_logs_from_rows(rows: &Vec<TbChangeLog>, log_type: u32) -> (r: Vec<ChangeLog>)
    requires
        forall|i: int| 0 <= i < rows@.len() ==>
            (#[trigger] rows@[i]).id is Some && rows@[i].log_action is Some && rows@[i].data_id is Some,
    ensures
        r@.len() == rows@.len(),
        forall|i: int| 0 <= i < rows@.len() ==> change_log_matches_row(#[trigger] r@[i], rows@[i], log_type),
{
    let mut r: Vec<ChangeLog> = Vec::new();
    let mut i: usize = 0;
    while i < rows.len()
        invariant
            i <= rows@.len(),
            forall|k: int| 0 <= k < rows@.len() ==>
                (#[trigger] rows@[k]).id is Some && rows@[k].log_action is Some && rows@[k].data_id is Some,
            r@.len() == i,
            forall|k: int| 0 <= k < i ==> change_log_matches_row(#[trigger] r@[k], rows@[k], log_type),
        decreases rows@.len() - i,
    {
        assert(rows@[i as int].id is Some);
        r.push(change_log_from_row(&rows[i], log_type));
        i = i + 1;
    }
    r
}

/// How far a gateway has read after a batch: the id and type of its last change.
pub fn frame_log_point(logs: &Vec<ChangeLog>) -> (r: Option<LogPoint>)
    ensures
        logs@.len() == 0 ==> r is None,
        logs@.len() > 0 ==> r == Some(LogPoint { log_type: logs@.last().log_type, log_id: logs@.last().log_id }),
{
    if logs.len() == 0 {
        None
    } else {
        let last = &logs[logs.len() - 1];
        Some(LogPoint { log_type: last.log_type, log_id: last.log_id })
    }
}

/// A batch that carries one change and points at it.
pub fn single_change_frame(c: ChangeLog) -> (r: DataFrame)
    ensures
        r.logs@.len() == 1,
        r.logs@[0] == c,
        r.log_point == Some(LogPoint { log_type: c.log_type, log_id: c.log_id }),
{
    let p = LogPoint { log_type: c.log_type, log_id: c.log_id };
    let mut logs: Vec<ChangeLog> = Vec::new();
    logs.push(c);
    DataFrame { logs, log_point: Some(p) }
}

// ---------------------------------------------------------------------
// Where each type of log is read from when a gateway connects
// ---------------------------------------------------------------------

/// The id of the last of the first `n` points of type `t`.
pub open spec fn last_point_id(points: Seq<LogPoint>, t: u32, n: nat) -> Option<u64>
    decreases n,
{
    if n == 0 {
        None
    } else if points[n - 1].log_type == t {
        Some(points[n - 1].log_id)
    } else {
        last_point_id(points, t, (n - 1) as nat)
    }
}

/// Where the logs of type `t` are read from: the last point the gateway
/// reported for it, or the beginning (zero).
pub open spec fn sync_start(points: Seq<LogPoint>, t: u32) -> u64 {
    match last_point_id(points, t, points.len()) {
        Some(id) => id,
        None => 0,
    }
}

pub open spec fn has_type(points: Seq<LogPoint>, t: u32) -> bool {
    exists|i: int| 0 <= i < points.len() && (#[trigger] points[i]).log_type == t
}

pub open spec fn distinct_types(points: Seq<LogPoint>) -> bool {
    forall|i: int, j: int| 0 <= i < j < points.len() ==> points[i].log_type != points[j].log_type
}

proof fn lemma_last_point_id(points: Seq<LogPoint>, t: u32, n: nat)
    requires
        n <= points.len(),
    ensures
        last_point_id(points, t, n) is Some <==> exists|i: int| 0 <= i < n && (#[trigger] points[i]).log_type == t,
    decreases n,
{
    if n > 0 {
        lemma_last_point_id(points, t, (n - 1) as nat);
    }
}

proof fn lemma_last_point_id_is_last(points: Seq<LogPoint>, t: u32, n: nat, m: int)
    requires
        0 <= m < n <= points.len(),
        points[m].log_type == t,
        forall|j: int| m < j < n ==> (#[trigger] points[j]).log_type != t,
    ensures
        last_point_id(points, t, n) == Some(points[m].log_id),
    decreases n,
{
    if m < n - 1 {
        assert(points[n - 1].log_type != t);
        lemma_last_point_id_is_last(points, t, (n - 1) as nat, m);
    }
}

/// Logs of a type are read from the id of the last point the gateway
/// reported for that type, and from the beginning (zero) for a type it did
/// not report.
pub proof fn lemma_sync_starts_after_last_report(points: Seq<LogPoint>, t: u32, m: int)
    ensures
        (forall|i: int| 0 <= i < points.len() ==> (#[trigger] points[i]).log_type != t) ==> sync_start(points, t) == 0,
        (0 <= m < points.len() && points[m].log_type == t
            && forall|j: int| m < j < points.len() ==> (#[trigger] points[j]).log_type != t)
            ==> sync_start(points, t) == points[m].log_id,
{
    lemma_last_point_id(points, t, points.len());
    if 0 <= m < points.len() && points[m].log_type == t
        && forall|j: int| m < j < points.len() ==> (#[trigger] points[j]).log_type != t {
        lemma_last_point_id_is_last(points, t, points.len(), m);
    }
}

fn find_type(v: &Vec<LogPoint>, t: u32) -> (r: Option<usize>)
    ensures
        r matches Some(k) ==> k < v@.len() && v@[k as int].log_type == t,
        r is None ==> !has_type(v@, t),
{
    let mut i: usize = 0;
    while i < v.len()
        invariant
            i <= v@.len(),
            forall|j: int| 0 <= j < i ==> (#[trigger] v@[j]).log_type != t,
        decreases v@.len() - i,
    {
        if v[i].log_type == t {
            return Some(i);
        }
        i = i + 1;
    }
    None
}

/// Where each type of log is read from for a gateway that reported
/// `points`: one point per type, for every reported type and every type in
/// `all_types`; a reported type starts after its last reported id, any
/// other type from the beginning.
pub fn sync_points(points: &Vec<LogPoint>, all_types: &Vec<u32>) -> (r: Vec<LogPoint>)
    ensures
        distinct_types(r@),
        forall|t: u32| has_type(r@, t) <==> (has_type(points@, t) || all_types@.contains(t)),
        forall|i: int| 0 <= i < r@.len() ==> (#[trigger] r@[i]).log_id == sync_start(points@, r@[i].log_type),
{
    let mut r: Vec<LogPoint> = Vec::new();
    let mut i: usize = 0;
    while i < points.len()
        invariant
            i <= points@.len(),
            distinct_types(r@),
            forall|t: u32| has_type(r@, t) <==> exists|m: int| 0 <= m < i && (#[trigger] points@[m]).log_type == t,
            forall|k: int| 0 <= k < r@.len() ==>
                last_point_id(points@, (#[trigger] r@[k]).log_type, i as nat) == Some(r@[k].log_id),
        decreases points@.len() - i,
    {
        let p = points[i];
        let ghost before = r@;
        match find_type(&r, p.log_type) {
            Some(k) => {
                r.set(k, p);
            }
            None => {
                r.push(p);
            }
        }
        assert forall|t: u32| has_type(r@, t) <==> exists|m: int| 0 <= m < i + 1 && (#[trigger] points@[m]).log_type == t by {
            if has_type(r@, t) {
                let k = choose|k: int| 0 <= k < r@.len() && (#[trigger] r@[k]).log_type == t;
                if k < before.len() && before[k].log_type == t {
                    assert(has_type(before, t));
                } else {
                    assert(points@[i as int].log_type == t);
                }
            }
            if exists|m: int| 0 <= m < i + 1 && (#[trigger] points@[m]).log_type == t {
                let m = choose|m: int| 0 <= m < i + 1 && (#[trigger] points@[m]).log_type == t;
                if m < i {
                    assert(has_type(before, t));
                    let k = choose|k: int| 0 <= k < before.len() && (#[trigger] before[k]).log_type == t;
                    assert(r@[k].log_type == t);
                } else {
                    if has_type(before, p.log_type) {
                        let k = choose|k: int| 0 <= k < before.len() && (#[trigger] before[k]).log_type == p.log_type;
                        assert(r@[k].log_type == t);
                    } else {
                        assert(r@[r@.len() - 1].log_type == t);
                    }
                }
            }
        }
        i = i + 1;
    }
    proof {
        assert forall|t: u32| has_type(points@, t) <==> exists|m: int| 0 <= m < points@.len() && (#[trigger] points@[m]).log_type == t by {}
    }
    let mut j: usize = 0;
    while j < all_types.len()
        invariant
            j <= all_types@.len(),
            distinct_types(r@),
            forall|t: u32| has_type(r@, t) <==> (has_type(points@, t) || all_types@.take(j as int).contains(t)),
            forall|k: int| 0 <= k < r@.len() ==> (#[trigger] r@[k]).log_id == sync_start(points@, r@[k].log_type),
        decreases all_types@.len() - j,
    {
        let t = all_types[j];
        let ghost before = r@;
        assert(all_types@.take(j + 1) =~= all_types@.take(j as int).push(t));
        match find_type(&r, t) {
            Some(_) => {}
            None => {
                proof {
                    lemma_last_point_id(points@, t, points@.len());
                    assert(!has_type(points@, t));
                }
                r.push(LogPoint { log_type: t, log_id: 0 });
            }
        }
        assert forall|u: u32| has_type(r@, u) <==> (has_type(points@, u) || all_types@.take(j + 1).contains(u)) by {
            if has_type(r@, u) {
                let k = choose|k: int| 0 <= k < r@.len() && (#[trigger] r@[k]).log_type == u;
                if k < before.len() {
                    assert(has_type(before, u));
                } else {
                    assert(all_types@.take(j + 1)[j as int] == u);
                }
            }
            if has_type(points@, u) || all_types@.take(j + 1).contains(u) {
                if has_type(points@, u) || all_types@.take(j as int).contains(u) {
                    let k = choose|k: int| 0 <= k < before.len() && (#[trigger] before[k]).log_type == u;
                    assert(r@[k].log_type == u);
                } else {
                    assert(all_types@.take(j + 1).contains(u));
                    assert(u == t) by {
                        let q = choose|q: int| 0 <= q < j + 1 && #[trigger] all_types@.take(j + 1)[q] == u;
                        if q < j {
                            assert(all_types@.take(j as int)[q] == u);
                        }
                    }
                    if has_type(before, u) {
                        let k = choose|k: int| 0 <= k < before.len() && (#[trigger] before[k]).log_type == u;
                        assert(r@[k].log_type == u);
                    } else {
                        assert(r@[r@.len() - 1].log_type == u);
                    }
                }
            }
        }
        j = j + 1;
    }
    assert(all_types@.take(all_types@.len() as int) =~= all_types@);
    r
}

/// A gateway is sent every site afresh, rather than the site logs after a
/// point, when it has read no site log yet.
pub fn sends_all_sites(point: LogPoint, site_type: u32) -> (r: bool)
    ensures
        r == (point.log_type == site_type && point.log_id == 0),
{
    point.log_type == site_type && point.log_id == 0
}

} // verus!

verus! {

// ---------------------------------------------------------------------
// Console peers
// ---------------------------------------------------------------------

/// A peer whose last sign of life is more than sixty seconds old is out of reach.
pub open spec fn peer_active(last_active: i64, now: i64) -> bool {
    now - last_active <= 60
}

/// The peers of a page that are in reach at `now` (in Unix seconds), in order.
pub fn active_peers(rows: Vec<TbConsole>, now: i64) -> (r: Vec<TbConsole>)
    requires
        forall|i: int| 0 <= i < rows@.len() ==> (#[trigger] rows@[i]).last_active_time is Some,
    ensures
        r@ == rows@.filter(|p: TbConsole| peer_active(p.last_active_time->0, now)),
{
    let ghost all = rows@;
    let mut rows = rows;
    let mut out: Vec<TbConsole> = Vec::new();
    let mut i: usize = 0;
    let n: usize = rows.len();
    assert(all.len() == n);
    proof {
        reveal(Seq::filter);
        assert(all.take(0) =~= Seq::<TbConsole>::empty());
        assert(all.skip(0) =~= all);
        assert(all.take(0).filter(|p: TbConsole| peer_active(p.last_active_time->0, now)) =~= Seq::<TbConsole>::empty());
    }
    while rows.len() > 0
        invariant
            i <= all.len(),
            rows@.len() + i == all.len(),
            rows@ == all.skip(i as int),
            forall|k: int| 0 <= k < all.len() ==> (#[trigger] all[k]).last_active_time is Some,
            all.len() <= usize::MAX,
            out@ == all.take(i as int).filter(|p: TbConsole| peer_active(p.last_active_time->0, now)),
        decreases rows@.len(),
    {
        let p = rows.remove(0);
        proof {
            reveal(Seq::filter);
        }
        assert(p == all[i as int]);
        assert(all.take(i + 1).drop_last() =~= all.take(i as int));
        assert(all.take(i + 1).last() == p);
        let last_active: i64 = *p.last_active_time.as_ref().unwrap();
        if (now as i128) - (last_active as i128) <= 60 {
            out.push(p);
        }
        assert(rows@ =~= all.skip(i + 1));
        i = i + 1;
    }
    assert(all.take(i as int) =~= all);
    out
}

} // verus!

verus! {

/// A change is written to the peers with the row of the console that
/// writes it: a known console gets a new sign of life, a new one a new row.
pub fn refreshed_console_row(row: TbConsole, now: i64) -> (r: TbConsole)
    ensures
        r.id == row.id,
        r.host == row.host,
        r.port == row.port,
        r.gmt_create == row.gmt_create,
        r.last_active_time == Some(now),
        r.gmt_modified == Some(now),
{
    let mut r = row;
    r.last_active_time = Some(now);
    r.gmt_modified = Some(now);
    r
}

/// The row of a console that signs in for the first time at `now`.
pub fn new_console_row(host: &str, port: u16, now: i64) -> (r: TbConsole)
    ensures
        r.id is None,
        r.host matches Some(h) && h@ == host@,
        r.port == Some(port as i32),
        r.last_active_time == Some(now),
        r.gmt_create == Some(now),
        r.gmt_modified == Some(now),
{
    TbConsole {
        id: None,
        host: Some(host.to_owned()),
        port: Some(port as i32),
        last_active_time: Some(now),
        gmt_create: Some(now),
        gmt_modified: Some(now),
    }
}

/// The address `host:port` of a peer.
pub fn peer_address(host: &str, port: u16) -> (r: String)
    ensures
        r@ == host@ + ":"@ + int_text(port as int),
{
    let mut s = concat(host, ":");
    let p = int_to_text(port as i64);
    push_all(&mut s, p.as_str());
    s
}

// ---------------------------------------------------------------------
// Frames between console peers: a 4-byte big-endian length, then the bytes
// ---------------------------------------------------------------------

/// The largest frame (exclusive) that a peer reads: 8 MiB.
pub const FRAME_CAPACITY: u32 = 8388608;

/// The four big-endian bytes of `n`.
pub open spec fn be_u32(n: u32) -> Seq<u8> {
    seq![(n / 16777216) as u8, (n / 65536 % 256) as u8, (n / 256 % 256) as u8, (n % 256) as u8]
}

/// The number that four big-endian bytes give.
pub open spec fn be_u32_value(b: Seq<u8>) -> nat {
    (b[0] as nat) * 16777216 + (b[1] as nat) * 65536 + (b[2] as nat) * 256 + (b[3] as nat)
}

/// The frame that carries `data` to a peer: its length in four big-endian bytes, then the data.
pub fn peer_frame(data: &[u8]) -> (r: Vec<u8>)
    requires
        data@.len() <= u32::MAX,
    ensures
        r@ == be_u32(data@.len() as u32) + data@,
{
    let n: u32 = data.len() as u32;
    let mut r: Vec<u8> = Vec::new();
    r.push((n / 16777216) as u8);
    r.push((n / 65536 % 256) as u8);
    r.push((n / 256 % 256) as u8);
    r.push((n % 256) as u8);
    let mut i: usize = 0;
    while i < data.len()
        invariant
            i <= data@.len(),
            n == data@.len(),
            r@ == be_u32(n) + data@.take(i as int),
        decreases data@.len() - i,
    {
        r.push(data[i]);
        assert(data@.take(i + 1) =~= data@.take(i as int).push(data@[i as int]));
        i = i + 1;
    }
    assert(data@.take(data@.len() as int) =~= data@);
    r
}

/// The length that the first four bytes of a frame announce.
pub fn frame_length(header: &[u8]) -> (r: u32)
    requires
        header@.len() >= 4,
    ensures
        r == be_u32_value(header@),
{
    let b0: u32 = header[0] as u32;
    let b1: u32 = header[1] as u32;
    let b2: u32 = header[2] as u32;
    let b3: u32 = header[3] as u32;
    b0 * 16777216 + b1 * 65536 + b2 * 256 + b3
}

/// A peer reads a frame whose announced length is above zero and below 8 MiB; it drops any other.
pub fn frame_accepted(length: u32) -> (r: bool)
    ensures
        r == (0 < length && length < FRAME_CAPACITY),
{
    length > 0 && length < FRAME_CAPACITY
}

/// The length written in front of a frame is read back as the length of its data.
pub proof fn lemma_frame_length_round_trip(n: u32)
    ensures
        be_u32_value(be_u32(n)) == n,
{
    assert(n / 16777216 < 256) by (bit_vector);
    assert((n / 16777216) * 16777216 + (n / 65536 % 256) * 65536 + (n / 256 % 256) * 256 + n % 256 == n) by (bit_vector);
}

// ---------------------------------------------------------------------
// Accepting connections
// ---------------------------------------------------------------------

/// What the listener does after a failed accept.
#[derive(PartialEq, Eq, Structural, Clone, Copy, Debug)]
pub enum AcceptStep {
    /// Sleep this many seconds and try again, with the next back-off.
    Retry { sleep_secs: u64, next_backoff: u64 },
    /// Give up and report the error.
    GiveUp,
}

/// After a failed accept with back-off `backoff` (starting at one second),
/// the listener sleeps that long and doubles it, until it is above 64: then it gives up.
pub fn after_failed_accept(backoff: u64) -> (r: AcceptStep)
    requires
        backoff <= u64::MAX / 2,
    ensures
        backoff > 64 ==> r == AcceptStep::GiveUp,
        backoff <= 64 ==> r == (AcceptStep::Retry { sleep_secs: backoff, next_backoff: (backoff * 2) as u64 }),
{
    if backoff > 64 {
        AcceptStep::GiveUp
    } else {
        AcceptStep::Retry { sleep_secs: backoff, next_backoff: backoff * 2 }
    }
}

/// The back-off after `k` failed accepts, starting from one second.
pub open spec fn backoff_after(k: nat) -> nat
    decreases k,
{
    if k == 0 { 1 } else { 2 * backoff_after((k - 1) as nat) }
}

/// Starting from one second, the listener retries seven times (sleeping 1,
/// 2, ..., 64 seconds) and gives up at the eighth failure.
pub proof fn lemma_accept_gives_up_after_seven_retries(k: nat)
    ensures
        k < 7 ==> backoff_after(k) <= 64,
        k == 7 ==> backoff_after(k) == 128,
        k >= 7 ==> backoff_after(k) > 64,
    decreases k,
{
    reveal_with_fuel(backoff_after, 8);
    if k > 7 {
        lemma_accept_gives_up_after_seven_retries((k - 1) as nat);
    } else if k < 7 {
        if k > 0 {
            lemma_accept_gives_up_after_seven_retries((k - 1) as nat);
        }
    }
}

// ---------------------------------------------------------------------
// Gateways that a change goes to
// ---------------------------------------------------------------------

/// A connected gateway, as the console knows it: its cluster once it has
/// said, and whether the session keys are agreed.
pub struct GatewaySession {
    pub cluster: Option<String>,
    pub has_crypto: bool,
}

pub open spec fn receives_change(s: GatewaySession, cluster: Seq<char>) -> bool {
    s.cluster matches Some(c) && c@ == cluster && s.has_crypto
}

/// The gateways (by index) that a change of `cluster` is pushed to: those of
/// that cluster whose session keys are agreed, in order.
pub fn broadcast_targets(sessions: &Vec<GatewaySession>, cluster: &str) -> (r: Vec<usize>)
    ensures
        forall|k: int| 0 <= k < r@.len() ==> (#[trigger] r@[k]) < sessions@.len()
            && receives_change(sessions@[r@[k] as int], cluster@),
        forall|i: int| 0 <= i < sessions@.len() && receives_change(#[trigger] sessions@[i], cluster@)
            ==> r@.contains(i as usize),
        forall|a: int, b: int| 0 <= a < b < r@.len() ==> r@[a] < r@[b],
{
    let mut r: Vec<usize> = Vec::new();
    let mut i: usize = 0;
    while i < sessions.len()
        invariant
            i <= sessions@.len(),
            forall|k: int| 0 <= k < r@.len() ==> (#[trigger] r@[k]) < i
                && receives_change(sessions@[r@[k] as int], cluster@),
            forall|m: int| 0 <= m < i && receives_change(#[trigger] sessions@[m], cluster@)
                ==> r@.contains(m as usize),
            forall|a: int, b: int| 0 <= a < b < r@.len() ==> r@[a] < r@[b],
        decreases sessions@.len() - i,
    {
        let s = &sessions[i];
        let ghost before = r@;
        let hit = match &s.cluster {
            Some(c) => crate::text::text_eq(c.as_str(), cluster) && s.has_crypto,
            None => false,
        };
        if hit {
            r.push(i);
            assert forall|m: int| 0 <= m < i && receives_change(#[trigger] sessions@[m], cluster@)
                implies r@.contains(m as usize) by {
                let q = choose|q: int| 0 <= q < before.len() && before[q] == m as usize;
                assert(r@[q] == m as usize);
            }
            assert(r@[r@.len() - 1] == i);
        }
        i = i + 1;
    }
    r
}

} // verus!

verus! {

/// The batch sent for one page of stored logs of a type: nothing once the
/// pages run out, else the page's changes, pointing at the last of them.
pub fn incremental_frame(rows: &Vec<TbChangeLog>, log_type: u32) -> (r: Option<DataFrame>)
    requires
        forall|i: int| 0 <= i < rows@.len() ==>
            (#[trigger] rows@[i]).id is Some && rows@[i].log_action is Some && rows@[i].data_id is Some,
    ensures
        rows@.len() == 0 <==> r is None,
        r matches Some(f) ==> {
            &&& f.logs@.len() == rows@.len()
            &&& forall|i: int| 0 <= i < rows@.len() ==> change_log_matches_row(#[trigger] f.logs@[i], rows@[i], log_type)
            &&& f.log_point == Some(LogPoint { log_type, log_id: rows@.last().id->0 as u64 })
        },
{
    if rows.len() == 0 {
        return None;
    }
    let logs = change_logs_from_rows(rows, log_type);
    let p = frame_log_point(&logs);
    assert(change_log_matches_row(logs@[rows@.len() - 1], rows@[rows@.len() - 1], log_type));
    Some(DataFrame { logs, log_point: p })
}

/// A site sent afresh: its cluster, its id and its JSON.
pub struct SiteSnapshot {
    pub cluster: String,
    pub data_id: u64,
    pub json: String,
}

/// The batch sent for one page of sites when a gateway has read no site log:
/// nothing once the pages run out, else one creation per site (with log id
/// zero), pointing at `last_log_id`, the stored log of the page's last site.
pub fn site_snapshot_frame(
    sites: &Vec<SiteSnapshot>,
    site_type: u32,
    create_action: u32,
    last_log_id: u64,
) -> (r: Option<DataFrame>)
    ensures
        sites@.len() == 0 <==> r is None,
        r matches Some(f) ==> {
            &&& f.logs@.len() == sites@.len()
            &&& forall|i: int| 0 <= i < sites@.len() ==> {
                let c = #[trigger] f.logs@[i];
                &&& c.log_id == 0
                &&& c.cluster == sites@[i].cluster
                &&& c.log_type == site_type
                &&& c.log_action == create_action
                &&& c.data_id == sites@[i].data_id
                &&& c.data@ == vstd::utf8::encode_utf8(sites@[i].json@)
            }
            &&& f.log_point == Some(LogPoint { log_type: site_type, log_id: last_log_id })
        },
{
    if sites.len() == 0 {
        return None;
    }
    let mut logs: Vec<ChangeLog> = Vec::new();
    let mut i: usize = 0;
    while i < sites.len()
        invariant
            i <= sites@.len(),
            logs@.len() == i,
            forall|k: int| 0 <= k < i ==> {
                let c = #[trigger] logs@[k];
                &&& c.log_id == 0
                &&& c.cluster == sites@[k].cluster
                &&& c.log_type == site_type
                &&& c.log_action == create_action
                &&& c.data_id == sites@[k].data_id
                &&& c.data@ == vstd::utf8::encode_utf8(sites@[k].json@)
            },
        decreases sites@.len() - i,
    {
        let s = &sites[i];
        logs.push(ChangeLog {
            log_id: 0,
            cluster: s.cluster.clone(),
            log_type: site_type,
            log_action: create_action,
            data_id: s.data_id,
            data: vstd::slice::slice_to_vec(s.json.as_str().as_bytes()),
        });
        i = i + 1;
    }
    Some(DataFrame { logs, log_point: Some(LogPoint { log_type: site_type, log_id: last_log_id }) })
}

} // verus!
