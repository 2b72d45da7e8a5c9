use aigw_console::records::{TbBackend, TbLocation};
use aigw_console::site::{ProxyLocation, Site, SiteError};
use aigw_console::site_rows::{location_row, site_row};
use aigw_console::site_update::{new_site_locations, plan_site_creation, plan_site_update};

fn location(id: Option<u64>, path: &str, upstream: &[&str]) -> ProxyLocation {
    ProxyLocation {
        id,
        path: path.to_string(),
        proxy: true,
        protocol: "http".to_string(),
        upstream: upstream.iter().map(|s| s.to_string()).collect(),
        connection_timeout: 5,
        read_timeout: 5,
        write_timeout: 5,
        idle_timeout: 60,
        sni: "$host".to_string(),
        client_max_body_size: 0,
        rewrite: None,
        http_version: None,
        proxy_set_headers: None,
        proxy_add_headers: None,
        proxy_remove_headers: None,
        response_set_headers: None,
        response_add_headers: None,
        response_remove_headers: None,
        root_dir: None,
        auto_index: false,
    }
}

fn site(locations: Vec<ProxyLocation>) -> Site {
    Site {
        id: None,
        cluster: "c".to_string(),
        name: "s.com".to_string(),
        alt_names: vec![],
        auto_index: false,
        root_dir: None,
        tls_on: false,
        tls_enforce: false,
        acme_on: false,
        tls_cert: None,
        tls_cert_start_date: None,
        tls_cert_end_date: None,
        tls_private_key: None,
        rate_limit: 0,
        rate_limit_unit: 1000,
        locations,
    }
}

fn stored_location(id: i64, created: i64) -> TbLocation {
    let mut r = location_row(9, &location(None, "/old", &[]), created);
    r.id = Some(id);
    r
}

fn backend(id: i64, host: Option<&str>, port: i32) -> TbBackend {
    TbBackend { id: Some(id), location_id: Some(1), host: host.map(|h| h.to_string()), port: Some(port), gmt_create: None, gmt_modified: None }
}

#[test]
fn site_update_plans_every_row() {
    let s = site(vec![
        location(Some(1), "/a", &["x:1", "y:2"]),
        location(None, "/b", &["z:3", "z:3"]),
    ]);
    let mut stored = site_row(&s, 1);
    stored.id = Some(9);
    let rows = vec![stored_location(1, 100), stored_location(2, 200)];
    let backends = vec![vec![backend(10, Some("x"), 1), backend(11, Some("w"), 9)], vec![]];
    let u = match plan_site_update(&s, Some(stored), &rows, &backends, 500) {
        Ok(u) => u,
        Err(_) => panic!("plan failed"),
    };
    assert_eq!(u.site_row.id, Some(9));
    assert_eq!(u.site_row.gmt_modified, Some(500));
    assert_eq!(u.updates.len(), 1);
    assert_eq!(u.updates[0].location_id, 1);
    assert_eq!(u.updates[0].row.location.as_deref(), Some("/a"));
    assert_eq!(u.updates[0].row.gmt_create, Some(100));
    assert_eq!(u.updates[0].row.site_id, Some(9));
    assert_eq!(u.updates[0].delete_backend_ids, vec![11]);
    assert_eq!(u.updates[0].add_backends, vec![("y".to_string(), 2)]);
    assert_eq!(u.additions.len(), 1);
    assert_eq!(u.additions[0].row.location.as_deref(), Some("/b"));
    assert_eq!(u.additions[0].backends, vec![("z".to_string(), 3), ("z".to_string(), 3)]);
    assert_eq!(u.delete_location_ids, vec![2]);
}

#[test]
fn site_update_errors_in_order() {
    let s = site(vec![]);
    assert!(matches!(plan_site_update(&s, None, &vec![], &vec![], 1), Err(SiteError::LocationEmpty)));
    let s = site(vec![location(Some(1), "/a", &["x:1"])]);
    assert!(matches!(plan_site_update(&s, None, &vec![], &vec![], 1), Err(SiteError::ServerNotFound)));
    let stored = site_row(&s, 1);
    assert!(matches!(plan_site_update(&s, Some(stored), &vec![], &vec![], 1), Err(SiteError::ServerIdNotFound)));
    let mut stored = site_row(&s, 1);
    stored.id = Some(9);
    let rows = vec![stored_location(1, 100)];
    let backends = vec![vec![backend(10, None, 1)]];
    assert!(matches!(plan_site_update(&s, Some(stored), &rows, &backends, 1), Err(SiteError::HostEmpty)));
    let s = site(vec![location(None, "/n", &["h:port"])]);
    let mut stored = site_row(&s, 1);
    stored.id = Some(9);
    match plan_site_update(&s, Some(stored), &vec![], &vec![], 1) {
        Err(SiteError::InvalidPort(p)) => assert_eq!(p, "port"),
        _ => panic!("expected InvalidPort"),
    }
}

#[test]
fn site_creation() {
    let s = site(vec![location(None, "/a", &["x:1", "x:1", "y:2"])]);
    let row = match plan_site_creation(&s, 3) {
        Ok(r) => r,
        Err(_) => panic!("creation failed"),
    };
    assert_eq!(row.name.as_deref(), Some("s.com"));
    assert_eq!(row.gmt_create, Some(3));
    assert!(matches!(plan_site_creation(&site(vec![]), 3), Err(SiteError::LocationEmpty)));
    let locs = new_site_locations(&s, 42, 3);
    assert_eq!(locs.len(), 1);
    assert_eq!(locs[0].0.site_id, Some(42));
    assert_eq!(locs[0].1, vec![("x".to_string(), 1), ("y".to_string(), 2)]);
}
