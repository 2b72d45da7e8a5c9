use aigw_console::changelog::{
    active_peers, after_failed_accept, broadcast_targets, change_log_from_row, change_log_row,
    frame_accepted, frame_length, frame_log_point, incremental_frame, new_console_row, peer_address,
    peer_frame, refreshed_console_row, sends_all_sites, single_change_frame, site_snapshot_frame,
    sync_points, AcceptStep, ChangeLog, GatewaySession, LogPoint, SiteSnapshot,
};
use aigw_console::records::{TbChangeLog, TbConsole};

fn stored(id: i64, action: i32, data: Option<&str>) -> TbChangeLog {
    TbChangeLog {
        id: Some(id),
        cluster_name: Some("c".to_string()),
        log_type: Some(1),
        log_action: Some(action),
        data_id: Some(id * 10),
        data: data.map(|s| s.to_string()),
        expire_second: Some(0),
        gmt_create: None,
        gmt_modified: None,
    }
}

#[test]
fn change_log_row_records_the_change() {
    let r = change_log_row("c1".to_string(), 2, 3, 44, 300, Some("{}".to_string()), 99);
    assert_eq!(r.id, None);
    assert_eq!(r.cluster_name.as_deref(), Some("c1"));
    assert_eq!(r.log_type, Some(2));
    assert_eq!(r.log_action, Some(3));
    assert_eq!(r.data_id, Some(44));
    assert_eq!(r.expire_second, Some(300));
    assert_eq!(r.data.as_deref(), Some("{}"));
    assert_eq!(r.gmt_create, Some(99));
}

#[test]
fn change_log_read_from_row() {
    let mut row = stored(7, 2, Some("héllo"));
    row.cluster_name = None;
    let c = change_log_from_row(&row, 5);
    assert_eq!(c.log_id, 7);
    assert_eq!(c.cluster, "");
    assert_eq!(c.log_type, 5);
    assert_eq!(c.log_action, 2);
    assert_eq!(c.data_id, 70);
    assert_eq!(c.data, "héllo".as_bytes().to_vec());
    let c = change_log_from_row(&stored(8, 1, None), 5);
    assert!(c.data.is_empty());
}

fn points(v: &[(u32, u64)]) -> Vec<LogPoint> {
    v.iter().map(|&(t, id)| LogPoint { log_type: t, log_id: id }).collect()
}

#[test]
fn sync_points_take_last_point_per_type_and_zero_for_others() {
    let reported = points(&[(1, 5), (2, 9), (1, 7)]);
    let mut r = sync_points(&reported, &vec![1, 2, 3, 4]);
    r.sort_by_key(|p| p.log_type);
    assert_eq!(r, points(&[(1, 7), (2, 9), (3, 0), (4, 0)]));
    let r = sync_points(&vec![], &vec![1, 2]);
    assert_eq!(r, points(&[(1, 0), (2, 0)]));
}

#[test]
fn all_sites_sent_when_no_site_log_read() {
    assert!(sends_all_sites(LogPoint { log_type: 1, log_id: 0 }, 1));
    assert!(!sends_all_sites(LogPoint { log_type: 1, log_id: 3 }, 1));
    assert!(!sends_all_sites(LogPoint { log_type: 2, log_id: 0 }, 1));
}

#[test]
fn incremental_frames_point_at_last_change() {
    let rows = vec![stored(3, 1, None), stored(4, 2, Some("x"))];
    let f = incremental_frame(&rows, 2).expect("frame");
    assert_eq!(f.logs.len(), 2);
    assert_eq!(f.logs[1].log_id, 4);
    assert_eq!(f.log_point, Some(LogPoint { log_type: 2, log_id: 4 }));
    assert!(incremental_frame(&vec![], 2).is_none());
    assert_eq!(frame_log_point(&f.logs), Some(LogPoint { log_type: 2, log_id: 4 }));
    assert_eq!(frame_log_point(&vec![]), None);
}

#[test]
fn site_snapshot_frames() {
    let sites = vec![
        SiteSnapshot { cluster: "c".to_string(), data_id: 11, json: "{\"a\":1}".to_string() },
        SiteSnapshot { cluster: "c".to_string(), data_id: 12, json: "{}".to_string() },
    ];
    let f = site_snapshot_frame(&sites, 1, 1, 77).expect("frame");
    assert_eq!(f.logs.len(), 2);
    assert_eq!(f.logs[0].log_id, 0);
    assert_eq!(f.logs[1].data_id, 12);
    assert_eq!(f.logs[0].data, b"{\"a\":1}".to_vec());
    assert_eq!(f.log_point, Some(LogPoint { log_type: 1, log_id: 77 }));
    assert!(site_snapshot_frame(&vec![], 1, 1, 0).is_none());
}

#[test]
fn single_change_frame_points_at_it() {
    let c = ChangeLog { log_id: 5, cluster: "c".to_string(), log_type: 3, log_action: 1, data_id: 0, data: vec![1] };
    let f = single_change_frame(c);
    assert_eq!(f.logs.len(), 1);
    assert_eq!(f.log_point, Some(LogPoint { log_type: 3, log_id: 5 }));
}

fn console(id: i64, last: i64) -> TbConsole {
    TbConsole {
        id: Some(id),
        host: Some("h".to_string()),
        port: Some(1),
        last_active_time: Some(last),
        gmt_create: None,
        gmt_modified: None,
    }
}

#[test]
fn peers_silent_for_a_minute_are_skipped() {
    let rows = vec![console(1, 1000), console(2, 939), console(3, 940), console(4, 2000)];
    let r = active_peers(rows, 1000);
    let ids: Vec<i64> = r.iter().map(|p| p.id.unwrap()).collect();
    assert_eq!(ids, vec![1, 3, 4]);
}

#[test]
fn console_rows() {
    let r = new_console_row("10.0.0.2", 9527, 5);
    assert_eq!(r.host.as_deref(), Some("10.0.0.2"));
    assert_eq!(r.port, Some(9527));
    assert_eq!(r.last_active_time, Some(5));
    let r = refreshed_console_row(console(4, 1), 60);
    assert_eq!(r.id, Some(4));
    assert_eq!(r.last_active_time, Some(60));
    assert_eq!(r.gmt_modified, Some(60));
    assert_eq!(peer_address("10.0.0.2", 9527), "10.0.0.2:9527");
}

#[test]
fn peer_frames_carry_big_endian_length() {
    let f = peer_frame(&[7u8; 300]);
    assert_eq!(&f[..4], &[0, 0, 1, 44]);
    assert_eq!(f.len(), 304);
    assert_eq!(frame_length(&f), 300);
    assert_eq!(frame_length(&[1, 2, 3, 4]), 0x01020304);
    assert_eq!(peer_frame(&[]), vec![0, 0, 0, 0]);
}

#[test]
fn frame_length_limits() {
    assert!(!frame_accepted(0));
    assert!(frame_accepted(1));
    assert!(frame_accepted(8 * 1024 * 1024 - 1));
    assert!(!frame_accepted(8 * 1024 * 1024));
}

#[test]
fn accept_retries_seven_times_then_gives_up() {
    let mut backoff = 1u64;
    let mut sleeps = vec![];
    loop {
        match after_failed_accept(backoff) {
            AcceptStep::Retry { sleep_secs, next_backoff } => {
                sleeps.push(sleep_secs);
                backoff = next_backoff;
            }
            AcceptStep::GiveUp => break,
        }
    }
    assert_eq!(sleeps, vec![1, 2, 4, 8, 16, 32, 64]);
}

#[test]
fn changes_go_to_gateways_of_their_cluster_with_keys() {
    let sessions = vec![
        GatewaySession { cluster: Some("a".to_string()), has_crypto: true },
        GatewaySession { cluster: Some("b".to_string()), has_crypto: true },
        GatewaySession { cluster: Some("a".to_string()), has_crypto: false },
        GatewaySession { cluster: None, has_crypto: true },
        GatewaySession { cluster: Some("a".to_string()), has_crypto: true },
    ];
    assert_eq!(broadcast_targets(&sessions, "a"), vec![0, 4]);
    assert_eq!(broadcast_targets(&sessions, "z"), Vec::<usize>::new());
}
