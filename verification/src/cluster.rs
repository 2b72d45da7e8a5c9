//! Clusters, their gateways, and the address lists a cluster allows or blocks.

use vstd::prelude::*;
use crate::records::{TbAigw, TbCluster, TbClusterIpCidr};
use crate::text::{chars_of, parse_u64, parse_unsigned, split_chars, split_spec, vec_views};

verus! {

fn clone_opt(o: &Option<String>) -> (r: Option<String>)
    ensures
        r == *o,
{
    match o {
        Some(s) => Some(s.clone()),
        None => None,
    }
}

/// A text, or the empty text when there is none.
pub open spec fn text_or_empty(o: Option<String>) -> Seq<char> {
    match o {
        Some(s) => s@,
        None => Seq::empty(),
    }
}

fn string_or_empty(o: &Option<String>) -> (r: String)
    ensures
        r@ == text_or_empty(*o),
{
    match o {
        Some(s) => s.clone(),
        None => String::new(),
    }
}

/// A group of gateways that share sites and settings.
pub struct Cluster {
    pub id: Option<u64>,
    pub name: String,
    pub security_key: String,
    pub enable: bool,
    pub enable_default_site: bool,
    pub enable_white_list: bool,
    pub enable_block_list: bool,
    pub real_ip_from: Vec<String>,
    pub description: Option<String>,
    pub gmt_modified: Option<String>,
}

/// The columns of a cluster row that the cluster decides.
pub open spec fn cluster_columns_match(r: TbCluster, c: Cluster) -> bool {
    &&& r.name == Some(c.name)
    &&& r.security_key == Some(c.security_key)
    &&& r.enable == c.enable
    &&& r.enable_default_site == c.enable_default_site
    &&& r.enable_white_list == c.enable_white_list
    &&& r.enable_block_list == c.enable_block_list
    &&& r.description == c.description
}

fn cluster_columns(c: &Cluster, gmt_create: Option<i64>, now: i64) -> (r: TbCluster)
    ensures
        cluster_columns_match(r, *c),
        r.id is None,
        r.gmt_create == gmt_create,
        r.gmt_modified == Some(now),
{
    TbCluster {
        id: None,
        name: Some(c.name.clone()),
        security_key: Some(c.security_key.clone()),
        enable: c.enable,
        enable_default_site: c.enable_default_site,
        enable_white_list: c.enable_white_list,
        enable_block_list: c.enable_block_list,
        description: clone_opt(&c.description),
        gmt_create,
        gmt_modified: Some(now),
    }
}

/// The row of a new cluster, created at `now`.
pub fn cluster_row(c: &Cluster, now: i64) -> (r: TbCluster)
    ensures
        cluster_columns_match(r, *c),
        r.id is None,
        r.gmt_create == Some(now),
        r.gmt_modified == Some(now),
{
    cluster_columns(c, Some(now), now)
}

/// The row that changes a cluster at `now` (its creation time is left alone).
pub fn cluster_update_row(c: &Cluster, now: i64) -> (r: TbCluster)
    ensures
        cluster_columns_match(r, *c),
        r.id is None,
        r.gmt_create is None,
        r.gmt_modified == Some(now),
{
    cluster_columns(c, None, now)
}

/// The cluster that a row describes, with its change time already written out.
pub fn cluster_from_row(row: &TbCluster, gmt_modified: Option<String>) -> (c: Cluster)
    ensures
        c.id == (match row.id { Some(i) => Some(i as u64), None => None }),
        c.name@ == text_or_empty(row.name),
        c.security_key@ == text_or_empty(row.security_key),
        c.enable == row.enable,
        c.enable_default_site == row.enable_default_site,
        c.enable_white_list == row.enable_white_list,
        c.enable_block_list == row.enable_block_list,
        c.real_ip_from@.len() == 0,
        c.description == row.description,
        c.gmt_modified == gmt_modified,
{
    Cluster {
        id: match row.id { Some(i) => Some(i as u64), None => None },
        name: string_or_empty(&row.name),
        security_key: string_or_empty(&row.security_key),
        enable: row.enable,
        enable_default_site: row.enable_default_site,
        enable_white_list: row.enable_white_list,
        enable_block_list: row.enable_block_list,
        real_ip_from: Vec::new(),
        description: clone_opt(&row.description),
        gmt_modified,
    }
}

/// A cluster written to its row and read back is the same cluster, but for
/// the id and change time that the row gives, and its trusted proxies, which are not stored.
pub proof fn lemma_cluster_row_round_trip(c: Cluster, row: TbCluster, back: Cluster, gmt_modified: Option<String>)
    requires
        cluster_columns_match(row, c),
        back.name@ == text_or_empty(row.name),
        back.security_key@ == text_or_empty(row.security_key),
        back.enable == row.enable,
        back.enable_default_site == row.enable_default_site,
        back.enable_white_list == row.enable_white_list,
        back.enable_block_list == row.enable_block_list,
        back.description == row.description,
    ensures
        back.name@ == c.name@,
        back.security_key@ == c.security_key@,
        back.enable == c.enable,
        back.enable_default_site == c.enable_default_site,
        back.enable_white_list == c.enable_white_list,
        back.enable_block_list == c.enable_block_list,
        back.description == c.description,
{
}

// ---------------------------------------------------------------------
// Gateways
// ---------------------------------------------------------------------

/// What a gateway says of itself when it connects.
pub struct HandshakeInfo {
    pub cluster: String,
    pub ip: String,
    pub version: String,
    pub os_name: String,
    pub os_version: String,
    pub os_arch: String,
    pub cpu_name: String,
    pub cpu_vendor: String,
    pub cpu_frequency: u64,
    pub cpu_nums: u32,
}

/// The columns of a gateway row that its handshake decides.
pub open spec fn aigw_columns_match(r: TbAigw, h: HandshakeInfo) -> bool {
    &&& r.version == Some(h.version)
    &&& r.os_name == Some(h.os_name)
    &&& r.os_version == Some(h.os_version)
    &&& r.os_arch == Some(h.os_arch)
    &&& r.cpu_name == Some(h.cpu_name)
    &&& r.cpu_vendor == Some(h.cpu_vendor)
    &&& r.cpu_frequency == Some(h.cpu_frequency as i64)
    &&& r.cpu_nums == Some(h.cpu_nums as i32)
}

/// The row of a gateway seen for the first time at `now`.
pub fn aigw_row(h: HandshakeInfo, now: i64) -> (r: TbAigw)
    ensures
        aigw_columns_match(r, h),
        r.id is None,
        r.cluster_name == Some(h.cluster),
        r.ip == Some(h.ip),
        r.gmt_create == Some(now),
        r.gmt_modified == Some(now),
{
    TbAigw {
        id: None,
        cluster_name: Some(h.cluster),
        ip: Some(h.ip),
        version: Some(h.version),
        os_name: Some(h.os_name),
        os_version: Some(h.os_version),
        os_arch: Some(h.os_arch),
        cpu_name: Some(h.cpu_name),
        cpu_vendor: Some(h.cpu_vendor),
        cpu_frequency: Some(h.cpu_frequency as i64),
        cpu_nums: Some(h.cpu_nums as i32),
        gmt_create: Some(now),
        gmt_modified: Some(now),
    }
}

/// The row of a known gateway that connects again at `now`: what it says of
/// itself replaces what was stored; its id, cluster, address and creation time stay.
pub fn refreshed_aigw_row(row: TbAigw, h: HandshakeInfo, now: i64) -> (r: TbAigw)
    ensures
        aigw_columns_match(r, h),
        r.id == row.id,
        r.cluster_name == row.cluster_name,
        r.ip == row.ip,
        r.gmt_create == row.gmt_create,
        r.gmt_modified == Some(now),
{
    let mut r = row;
    r.version = Some(h.version);
    r.os_name = Some(h.os_name);
    r.os_version = Some(h.os_version);
    r.os_arch = Some(h.os_arch);
    r.cpu_name = Some(h.cpu_name);
    r.cpu_vendor = Some(h.cpu_vendor);
    r.cpu_frequency = Some(h.cpu_frequency as i64);
    r.cpu_nums = Some(h.cpu_nums as i32);
    r.gmt_modified = Some(now);
    r
}

/// A gateway as the console lists it.
pub struct Server {
    pub id: Option<u64>,
    pub cluster_name: String,
    pub ip: String,
    pub version: String,
    pub os_name: String,
    pub os_version: String,
    pub os_arch: String,
    pub cpu_name: String,
    pub cpu_vendor: String,
    pub cpu_frequency: u64,
    pub cpu_nums: u32,
    pub gmt_create: Option<String>,
    pub gmt_modified: Option<String>,
}

/// The gateway that a row describes, with its times already written out:
/// missing texts read as empty, a missing frequency or CPU count as one.
pub fn server_from_row(row: &TbAigw, gmt_create: Option<String>, gmt_modified: Option<String>) -> (s: Server)
    ensures
        s.id == (match row.id { Some(i) => Some(i as u64), None => None }),
        s.cluster_name@ == text_or_empty(row.cluster_name),
        s.ip@ == text_or_empty(row.ip),
        s.version@ == text_or_empty(row.version),
        s.os_name@ == text_or_empty(row.os_name),
        s.os_version@ == text_or_empty(row.os_version),
        s.os_arch@ == text_or_empty(row.os_arch),
        s.cpu_name@ == text_or_empty(row.cpu_name),
        s.cpu_vendor@ == text_or_empty(row.cpu_vendor),
        s.cpu_frequency == (match row.cpu_frequency { Some(i) => i as u64, None => 1u64 }),
        s.cpu_nums == (match row.cpu_nums { Some(i) => i as u32, None => 1u32 }),
        s.gmt_create == gmt_create,
        s.gmt_modified == gmt_modified,
{
    Server {
        id: match row.id { Some(i) => Some(i as u64), None => None },
        cluster_name: string_or_empty(&row.cluster_name),
        ip: string_or_empty(&row.ip),
        version: string_or_empty(&row.version),
        os_name: string_or_empty(&row.os_name),
        os_version: string_or_empty(&row.os_version),
        os_arch: string_or_empty(&row.os_arch),
        cpu_name: string_or_empty(&row.cpu_name),
        cpu_vendor: string_or_empty(&row.cpu_vendor),
        cpu_frequency: match row.cpu_frequency { Some(i) => i as u64, None => 1u64 },
        cpu_nums: match row.cpu_nums { Some(i) => i as u32, None => 1u32 },
        gmt_create,
        gmt_modified,
    }
}

// ---------------------------------------------------------------------
// Address lists
// ---------------------------------------------------------------------

/// An address block: an address and the length of its prefix.
pub struct IpCidr {
    pub ip: String,
    pub prefix_len: u32,
}

/// Address blocks added together to one list of a cluster.
pub struct ClusterIpCidrList {
    pub id: Option<u64>,
    pub cluster_name: String,
    pub list: Vec<IpCidr>,
    pub list_type: u8,
    pub start_time: Option<String>,
    pub end_time: Option<String>,
    pub gmt_modified: Option<String>,
}

/// One stored address block, as the console lists it.
pub struct ClusterIpCidr {
    pub id: Option<u64>,
    pub cluster_name: String,
    pub ip: String,
    pub prefix_len: u32,
    pub list_type: u8,
    pub start_time: Option<String>,
    pub end_time: Option<String>,
    pub gmt_modified: Option<String>,
}

/// One block of an address list as gateways receive it.
pub struct IpItem {
    pub prefix_len: u32,
    pub data: String,
}

/// A change to an address list as gateways receive it.
pub struct IpList {
    pub item_type: u32,
    pub data: Vec<IpItem>,
}

/// The row stored for block `b` of `list`, written at `now`.
pub open spec fn ip_row_matches(r: TbClusterIpCidr, list: ClusterIpCidrList, b: IpCidr, now: i64) -> bool {
    &&& r.id is None
    &&& r.cluster_name == Some(list.cluster_name)
    &&& r.ip == Some(b.ip)
    &&& r.prefix_len == Some(b.prefix_len as i32)
    &&& r.ip_type == Some(list.list_type as i8)
    &&& r.start_time is None
    &&& r.end_time is None
    &&& r.gmt_create == Some(now)
    &&& r.gmt_modified == Some(now)
}

/// The rows stored for a list of blocks, one per block, and the change that
/// gateways receive for it.
pub fn added_ip_rows(list: &ClusterIpCidrList, now: i64) -> (r: (Vec<TbClusterIpCidr>, IpList))
    ensures
        r.0@.len() == list.list@.len(),
        forall|i: int| 0 <= i < list.list@.len() ==> ip_row_matches(#[trigger] r.0@[i], *list, list.list@[i], now),
        r.1.item_type == list.list_type as u32,
        r.1.data@.len() == list.list@.len(),
        forall|i: int| 0 <= i < list.list@.len() ==>
            (#[trigger] r.1.data@[i]).prefix_len == list.list@[i].prefix_len && r.1.data@[i].data == list.list@[i].ip,
{
    let mut rows: Vec<TbClusterIpCidr> = Vec::new();
    let mut items: Vec<IpItem> = Vec::new();
    let mut i: usize = 0;
    while i < list.list.len()
        invariant
            i <= list.list@.len(),
            rows@.len() == i,
            items@.len() == i,
            forall|k: int| 0 <= k < i ==> ip_row_matches(#[trigger] rows@[k], *list, list.list@[k], now),
            forall|k: int| 0 <= k < i ==>
                (#[trigger] items@[k]).prefix_len == list.list@[k].prefix_len && items@[k].data == list.list@[k].ip,
        decreases list.list@.len() - i,
    {
        let b = &list.list[i];
        rows.push(TbClusterIpCidr {
            id: None,
            cluster_name: Some(list.cluster_name.clone()),
            ip: Some(b.ip.clone()),
            prefix_len: Some(b.prefix_len as i32),
            ip_type: Some(list.list_type as i8),
            start_time: None,
            end_time: None,
            gmt_create: Some(now),
            gmt_modified: Some(now),
        });
        items.push(IpItem { prefix_len: b.prefix_len, data: b.ip.clone() });
        i = i + 1;
    }
    (rows, IpList { item_type: list.list_type as u32, data: items })
}

/// The change that gateways receive when a stored block is deleted: its
/// list type and the block, missing values read as zero or empty.
pub fn deleted_ip_list(row: &TbClusterIpCidr) -> (r: IpList)
    ensures
        r.item_type == (match row.ip_type { Some(t) => t as u32, None => 0u32 }),
        r.data@.len() == 1,
        r.data@[0].prefix_len == (match row.prefix_len { Some(p) => p as u32, None => 0u32 }),
        r.data@[0].data@ == text_or_empty(row.ip),
{
    let mut data: Vec<IpItem> = Vec::new();
    data.push(IpItem {
        prefix_len: match row.prefix_len { Some(p) => p as u32, None => 0u32 },
        data: string_or_empty(&row.ip),
    });
    IpList { item_type: match row.ip_type { Some(t) => t as u32, None => 0u32 }, data }
}

/// A stored block as the console lists it, with its times already written out.
pub fn cluster_ip_cidr_from_row(
    row: &TbClusterIpCidr,
    start_time: Option<String>,
    end_time: Option<String>,
    gmt_modified: Option<String>,
) -> (c: ClusterIpCidr)
    ensures
        c.id == (match row.id { Some(i) => Some(i as u64), None => None }),
        c.cluster_name@ == text_or_empty(row.cluster_name),
        c.ip@ == text_or_empty(row.ip),
        c.prefix_len == (match row.prefix_len { Some(p) => p as u32, None => 0u32 }),
        c.list_type == (match row.ip_type { Some(t) => t as u8, None => 0u8 }),
        c.start_time == start_time,
        c.end_time == end_time,
        c.gmt_modified == gmt_modified,
{
    ClusterIpCidr {
        id: match row.id { Some(i) => Some(i as u64), None => None },
        cluster_name: string_or_empty(&row.cluster_name),
        ip: string_or_empty(&row.ip),
        prefix_len: match row.prefix_len { Some(p) => p as u32, None => 0u32 },
        list_type: match row.ip_type { Some(t) => t as u8, None => 0u8 },
        start_time,
        end_time,
        gmt_modified,
    }
}

// ---------------------------------------------------------------------
// Ids given as `1,2,3`
// ---------------------------------------------------------------------

/// Every piece is a `u64` in decimal.
pub open spec fn all_ids_parse(parts: Seq<Seq<char>>) -> bool {
    forall|i: int| 0 <= i < parts.len() ==> (#[trigger] parse_unsigned(parts[i], u64::MAX as nat)) is Some
}

/// The ids of a comma-separated text, when every piece is a `u64`.
pub open spec fn parsed_ids(s: Seq<char>) -> Option<Seq<u64>> {
    let parts = split_spec(s, ',');
    if all_ids_parse(parts) {
        Some(Seq::new(parts.len(), |i: int| parse_unsigned(parts[i], u64::MAX as nat)->0 as u64))
    } else {
        None
    }
}

/// Reads ids written as `1,2,3`; a piece that is not a `u64` fails the whole text.
pub fn parse_ids(s: &str) -> (r: Option<Vec<u64>>)
    ensures
        r matches Some(v) ==> parsed_ids(s@) == Some(v@),
        r is None ==> parsed_ids(s@) is None,
{
    let cs = chars_of(s);
    let parts = split_chars(cs.as_slice(), ',');
    let ghost pv = vec_views(parts@);
    assert(pv == split_spec(s@, ','));
    let mut ids: Vec<u64> = Vec::new();
    let mut i: usize = 0;
    while i < parts.len()
        invariant
            i <= parts@.len(),
            pv == vec_views(parts@),
            pv == split_spec(s@, ','),
            ids@.len() == i,
            forall|k: int| 0 <= k < i ==> (#[trigger] parse_unsigned(pv[k], u64::MAX as nat)) is Some
                && ids@[k] == parse_unsigned(pv[k], u64::MAX as nat)->0 as u64,
        decreases parts@.len() - i,
    {
        assert(pv[i as int] == parts@[i as int]@);
        match parse_u64(parts[i].as_slice()) {
            Some(v) => {
                ids.push(v);
            }
            None => {
                assert(parse_unsigned(pv[i as int], u64::MAX as nat) is None);
                assert(!(forall|k: int| 0 <= k < pv.len() ==> (#[trigger] parse_unsigned(pv[k], u64::MAX as nat)) is Some));
                assert(!all_ids_parse(split_spec(s@, ',')));
                return None;
            }
        }
        i = i + 1;
    }
    assert(ids@ =~= Seq::new(pv.len(), |k: int| parse_unsigned(pv[k], u64::MAX as nat)->0 as u64));
    Some(ids)
}

} // verus!
