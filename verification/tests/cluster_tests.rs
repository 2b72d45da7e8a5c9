use aigw_console::cluster::{
    added_ip_rows, aigw_row, cluster_from_row, cluster_ip_cidr_from_row, cluster_row, cluster_update_row,
    deleted_ip_list, parse_ids, refreshed_aigw_row, server_from_row, Cluster, ClusterIpCidrList,
    HandshakeInfo, IpCidr,
};
use aigw_console::records::TbAigw;

fn cluster() -> Cluster {
    Cluster {
        id: None,
        name: "c1".to_string(),
        security_key: "k".to_string(),
        enable: true,
        enable_default_site: false,
        enable_white_list: true,
        enable_block_list: false,
        real_ip_from: vec![],
        description: Some("d".to_string()),
        gmt_modified: None,
    }
}

#[test]
fn cluster_written_and_read_back() {
    let r = cluster_row(&cluster(), 7);
    assert_eq!(r.gmt_create, Some(7));
    let back = cluster_from_row(&r, Some("2024-01-01 00:00:00".to_string()));
    let c = cluster();
    assert_eq!(back.name, c.name);
    assert_eq!(back.security_key, c.security_key);
    assert_eq!(back.enable, c.enable);
    assert_eq!(back.enable_white_list, c.enable_white_list);
    assert_eq!(back.description, c.description);
    assert_eq!(back.gmt_modified.as_deref(), Some("2024-01-01 00:00:00"));
    let u = cluster_update_row(&c, 9);
    assert_eq!(u.gmt_create, None);
    assert_eq!(u.gmt_modified, Some(9));
}

fn handshake() -> HandshakeInfo {
    HandshakeInfo {
        cluster: "c1".to_string(),
        ip: "10.0.0.9".to_string(),
        version: "1.0".to_string(),
        os_name: "linux".to_string(),
        os_version: "6".to_string(),
        os_arch: "x86_64".to_string(),
        cpu_name: "cpu".to_string(),
        cpu_vendor: "v".to_string(),
        cpu_frequency: 3000,
        cpu_nums: 8,
    }
}

#[test]
fn gateway_rows() {
    let r = aigw_row(handshake(), 5);
    assert_eq!(r.cluster_name.as_deref(), Some("c1"));
    assert_eq!(r.cpu_nums, Some(8));
    let mut stored = r;
    stored.id = Some(3);
    let mut h = handshake();
    h.version = "2.0".to_string();
    let r = refreshed_aigw_row(stored, h, 9);
    assert_eq!(r.id, Some(3));
    assert_eq!(r.version.as_deref(), Some("2.0"));
    assert_eq!(r.gmt_create, Some(5));
    assert_eq!(r.gmt_modified, Some(9));
}

#[test]
fn server_defaults() {
    let row = TbAigw {
        id: Some(2),
        cluster_name: None,
        ip: Some("1.1.1.1".to_string()),
        version: None,
        os_name: None,
        os_version: None,
        os_arch: None,
        cpu_name: None,
        cpu_vendor: None,
        cpu_frequency: None,
        cpu_nums: None,
        gmt_create: None,
        gmt_modified: None,
    };
    let s = server_from_row(&row, None, None);
    assert_eq!(s.id, Some(2));
    assert_eq!(s.cluster_name, "");
    assert_eq!(s.ip, "1.1.1.1");
    assert_eq!(s.cpu_frequency, 1);
    assert_eq!(s.cpu_nums, 1);
}

#[test]
fn address_list_rows_and_change() {
    let list = ClusterIpCidrList {
        id: None,
        cluster_name: "c1".to_string(),
        list: vec![IpCidr { ip: "10.0.0.0".to_string(), prefix_len: 8 }, IpCidr { ip: "1.2.3.4".to_string(), prefix_len: 32 }],
        list_type: 2,
        start_time: None,
        end_time: None,
        gmt_modified: None,
    };
    let (rows, change) = added_ip_rows(&list, 6);
    assert_eq!(rows.len(), 2);
    assert_eq!(rows[1].ip.as_deref(), Some("1.2.3.4"));
    assert_eq!(rows[1].prefix_len, Some(32));
    assert_eq!(rows[0].ip_type, Some(2));
    assert_eq!(change.item_type, 2);
    assert_eq!(change.data[0].data, "10.0.0.0");
    assert_eq!(change.data[0].prefix_len, 8);
    let mut row = rows.into_iter().next().unwrap();
    let c = deleted_ip_list(&row);
    assert_eq!(c.item_type, 2);
    assert_eq!(c.data.len(), 1);
    assert_eq!(c.data[0].prefix_len, 8);
    row.ip = None;
    row.ip_type = None;
    let c = deleted_ip_list(&row);
    assert_eq!(c.item_type, 0);
    assert_eq!(c.data[0].data, "");
    let listed = cluster_ip_cidr_from_row(&row, None, None, Some("t".to_string()));
    assert_eq!(listed.prefix_len, 8);
    assert_eq!(listed.list_type, 0);
    assert_eq!(listed.gmt_modified.as_deref(), Some("t"));
}

#[test]
fn ids_from_comma_separated_text() {
    assert_eq!(parse_ids("1,2,30"), Some(vec![1, 2, 30]));
    assert_eq!(parse_ids("7"), Some(vec![7]));
    assert_eq!(parse_ids("1,x"), None);
    assert_eq!(parse_ids(""), None);
    assert_eq!(parse_ids("1,,2"), None);
}
