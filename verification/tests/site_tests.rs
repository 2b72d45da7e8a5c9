use aigw_console::records::{TbBackend, TbLocation, TbSite};
use aigw_console::site::{
    added_location_backends, check_site, parse_upstream, parse_upstreams, plan_backend_changes,
    plan_location_changes, port_error_text, ProxyLocation, Site, SiteError, TlsCert,
};
use aigw_console::site_rows::{
    backend_row, cert_updated_site_row, location_row, site_from_rows, site_row, updated_location_row,
    updated_site_row,
};

fn location(id: Option<u64>, path: &str, proxy: bool, upstream: &[&str]) -> ProxyLocation {
    ProxyLocation {
        id,
        path: path.to_string(),
        proxy,
        protocol: "http".to_string(),
        upstream: upstream.iter().map(|s| s.to_string()).collect(),
        connection_timeout: 3,
        read_timeout: 4,
        write_timeout: 6,
        idle_timeout: 70,
        sni: "example.com".to_string(),
        client_max_body_size: 1024,
        rewrite: Some("^/a /b".to_string()),
        http_version: Some("1.1".to_string()),
        proxy_set_headers: Some("[]".to_string()),
        proxy_add_headers: None,
        proxy_remove_headers: Some("[\"x\"]".to_string()),
        response_set_headers: None,
        response_add_headers: None,
        response_remove_headers: None,
        root_dir: None,
        auto_index: true,
    }
}

fn site(locations: Vec<ProxyLocation>) -> Site {
    Site {
        id: None,
        cluster: "c1".to_string(),
        name: "example.com".to_string(),
        alt_names: vec!["www.example.com".to_string(), "api.example.com".to_string()],
        auto_index: false,
        root_dir: Some("/srv".to_string()),
        tls_on: true,
        tls_enforce: false,
        acme_on: false,
        tls_cert: Some(TlsCert { pem: "PEM".to_string(), not_before: 1000, not_after: 2000 }),
        tls_cert_start_date: None,
        tls_cert_end_date: None,
        tls_private_key: Some("KEY".to_string()),
        rate_limit: 10,
        rate_limit_unit: 60,
        locations,
    }
}

fn backend(id: i64, host: &str, port: i32) -> TbBackend {
    TbBackend {
        id: Some(id),
        location_id: Some(1),
        host: Some(host.to_string()),
        port: Some(port),
        gmt_create: None,
        gmt_modified: None,
    }
}

#[test]
fn site_without_location_is_refused() {
    let r = check_site(&site(vec![]));
    assert!(matches!(r, Err(SiteError::LocationEmpty)));
}

#[test]
fn proxying_location_without_backend_is_refused() {
    let s = site(vec![location(None, "/ok", true, &["a:1"]), location(None, "/api", true, &[])]);
    match check_site(&s) {
        Err(SiteError::BackendsEmpty(p)) => assert_eq!(p, "/api"),
        _ => panic!("expected BackendsEmpty"),
    }
    let s = site(vec![location(None, "/static", false, &[])]);
    assert!(check_site(&s).is_ok());
}

#[test]
fn upstream_entries_name_backends() {
    assert_eq!(parse_upstream("10.0.0.1:8080"), Some(("10.0.0.1".to_string(), 8080)));
    assert_eq!(parse_upstream("h:1:2"), Some(("h".to_string(), 1)));
    assert_eq!(parse_upstream("nohost"), None);
    assert_eq!(parse_upstream("h:99999"), None);
    let ups = vec!["a:1".to_string(), "b:2".to_string(), "a:1".to_string(), "bad".to_string()];
    let r = parse_upstreams(&ups);
    assert_eq!(r, vec![("a".to_string(), 1), ("b".to_string(), 2)]);
}

#[test]
fn backend_plan_keeps_wanted_deletes_rest_adds_missing() {
    let desired = vec![("a".to_string(), 1u16), ("c".to_string(), 3u16)];
    let stored = vec![backend(10, "a", 1), backend(11, "b", 2), backend(12, "a", 1)];
    let plan = match plan_backend_changes(&desired, &stored) {
        Ok(p) => p,
        Err(_) => panic!("plan failed"),
    };
    assert_eq!(plan.delete_ids, vec![11, 12]);
    assert_eq!(plan.add, vec![("c".to_string(), 3)]);
}

#[test]
fn backend_plan_stops_at_row_without_host() {
    let mut b = backend(1, "a", 1);
    b.host = None;
    let r = plan_backend_changes(&vec![], &vec![b]);
    assert!(matches!(r, Err(SiteError::HostEmpty)));
}

fn stored_location(id: i64) -> TbLocation {
    let mut r = location_row(1, &location(None, "/x", false, &[]), 5);
    r.id = Some(id);
    r
}

#[test]
fn location_plan_updates_adds_and_deletes() {
    let locs = vec![
        location(Some(2), "/two", false, &[]),
        location(None, "/new", false, &[]),
        location(Some(99), "/gone", false, &[]),
    ];
    let rows = vec![stored_location(1), stored_location(2), stored_location(3)];
    let plan = plan_location_changes(&locs, &rows);
    assert_eq!(plan.update, vec![(0, 1)]);
    assert_eq!(plan.add, vec![1]);
    let mut d = plan.delete_ids.clone();
    d.sort();
    assert_eq!(d, vec![1, 3]);
}

#[test]
fn new_location_backends_keep_repeats_and_trim() {
    let ups = vec![" a : 1 ".to_string(), "b".to_string(), "a:1".to_string(), "x:1:2".to_string()];
    let r = match added_location_backends(&ups) {
        Ok(v) => v,
        Err(_) => panic!("expected backends"),
    };
    assert_eq!(r, vec![("a".to_string(), 1), ("a".to_string(), 1)]);
}

#[test]
fn new_location_backend_with_bad_port_fails() {
    let ups = vec!["a:1".to_string(), "b:http".to_string()];
    match added_location_backends(&ups) {
        Err(SiteError::InvalidPort(p)) => assert_eq!(p, "http"),
        _ => panic!("expected InvalidPort"),
    }
}

#[test]
fn site_row_stores_site_columns() {
    let s = site(vec![location(None, "/", false, &[])]);
    let r = site_row(&s, 77);
    assert_eq!(r.id, None);
    assert_eq!(r.name.as_deref(), Some("example.com"));
    assert_eq!(r.cluster_name.as_deref(), Some("c1"));
    assert_eq!(r.alt_names.as_deref(), Some("www.example.com,api.example.com"));
    assert_eq!(r.tls_cert.as_deref(), Some("PEM"));
    assert_eq!(r.tls_cert_start_date, Some(1000));
    assert_eq!(r.tls_cert_end_date, Some(2000));
    assert_eq!(r.tls_private_key.as_deref(), Some("KEY"));
    assert_eq!(r.rate_limit, Some(10));
    assert_eq!(r.rate_limit_unit, Some(60));
    assert_eq!(r.gmt_create, Some(77));
    assert_eq!(r.gmt_modified, Some(77));
}

#[test]
fn acme_site_row_has_no_certificate() {
    let mut s = site(vec![]);
    s.acme_on = true;
    let r = site_row(&s, 1);
    assert_eq!(r.tls_cert, None);
    assert_eq!(r.tls_cert_start_date, None);
    assert_eq!(r.tls_private_key, None);
}

#[test]
fn certificate_dates_out_of_range_fall_back_to_epoch() {
    let mut s = site(vec![]);
    s.tls_cert = Some(TlsCert { pem: "P".to_string(), not_before: i64::MAX, not_after: 5 });
    let r = site_row(&s, 1);
    assert_eq!(r.tls_cert_start_date, Some(0));
    assert_eq!(r.tls_cert_end_date, Some(5));
}

#[test]
fn updated_site_row_keeps_identity() {
    let s = site(vec![]);
    let mut stored = site_row(&s, 1);
    stored.id = Some(9);
    let mut changed = site(vec![]);
    changed.rate_limit = 99;
    changed.cluster = "c2".to_string();
    let r = updated_site_row(stored, &changed, 50);
    assert_eq!(r.id, Some(9));
    assert_eq!(r.gmt_create, Some(1));
    assert_eq!(r.gmt_modified, Some(50));
    assert_eq!(r.rate_limit, Some(99));
    assert_eq!(r.cluster_name.as_deref(), Some("c2"));
}

#[test]
fn location_rows() {
    let l = location(None, "/api", true, &["a:1"]);
    let r = location_row(4, &l, 8);
    assert_eq!(r.site_id, Some(4));
    assert_eq!(r.location.as_deref(), Some("/api"));
    assert_eq!(r.proxy, Some(1));
    assert_eq!(r.auto_index, Some(1));
    assert_eq!(r.connection_timeout, Some(3));
    assert_eq!(r.idle_timeout, Some(70));
    assert_eq!(r.client_max_body_size, Some(1024));
    let mut stored = r.clone_row();
    stored.gmt_create = Some(2);
    let u = updated_location_row(4, &l, &stored, 9);
    assert_eq!(u.gmt_create, Some(2));
    assert_eq!(u.gmt_modified, Some(9));
    let b = backend_row(3, "h", 443, 6);
    assert_eq!(b.location_id, Some(3));
    assert_eq!(b.host.as_deref(), Some("h"));
    assert_eq!(b.port, Some(443));
}

trait CloneRow {
    fn clone_row(&self) -> TbLocation;
}

impl CloneRow for TbLocation {
    fn clone_row(&self) -> TbLocation {
        TbLocation {
            id: self.id,
            site_id: self.site_id,
            location: self.location.clone(),
            proxy: self.proxy,
            protocol: self.protocol.clone(),
            sni: self.sni.clone(),
            client_max_body_size: self.client_max_body_size,
            connection_timeout: self.connection_timeout,
            read_timeout: self.read_timeout,
            write_timeout: self.write_timeout,
            idle_timeout: self.idle_timeout,
            rewrite: self.rewrite.clone(),
            http_version: self.http_version.clone(),
            proxy_set_headers: self.proxy_set_headers.clone(),
            proxy_add_headers: self.proxy_add_headers.clone(),
            proxy_remove_headers: self.proxy_remove_headers.clone(),
            response_set_headers: self.response_set_headers.clone(),
            response_add_headers: self.response_add_headers.clone(),
            response_remove_headers: self.response_remove_headers.clone(),
            root_dir: self.root_dir.clone(),
            auto_index: self.auto_index,
            gmt_create: self.gmt_create,
            gmt_modified: self.gmt_modified,
        }
    }
}

#[test]
fn site_written_and_read_back_is_the_same() {
    let l = location(None, "/api", true, &["a:1"]);
    let s = site(vec![l]);
    let mut row = site_row(&s, 1);
    row.id = Some(5);
    let mut lrow = location_row(5, &s.locations[0], 1);
    lrow.id = Some(8);
    let backends = vec![backend(1, "a", 1)];
    let back = match site_from_rows(&row, None, None, None, None, &vec![(lrow, backends)]) {
        Ok(b) => b,
        Err(_) => panic!("read back failed"),
    };
    assert_eq!(back.id, Some(5));
    assert_eq!(back.name, s.name);
    assert_eq!(back.cluster, s.cluster);
    assert_eq!(back.alt_names, s.alt_names);
    assert_eq!(back.root_dir, s.root_dir);
    assert_eq!(back.rate_limit, s.rate_limit);
    assert_eq!(back.rate_limit_unit, s.rate_limit_unit);
    assert_eq!(back.tls_on, s.tls_on);
    let bl = &back.locations[0];
    let l = &s.locations[0];
    assert_eq!(bl.id, Some(8));
    assert_eq!(bl.path, l.path);
    assert_eq!(bl.proxy, l.proxy);
    assert_eq!(bl.upstream, vec!["a:1".to_string()]);
    assert_eq!(bl.connection_timeout, l.connection_timeout);
    assert_eq!(bl.idle_timeout, l.idle_timeout);
    assert_eq!(bl.sni, l.sni);
    assert_eq!(bl.rewrite, l.rewrite);
    assert_eq!(bl.proxy_remove_headers, l.proxy_remove_headers);
    assert_eq!(bl.auto_index, l.auto_index);
}

fn bare_row() -> TbSite {
    TbSite {
        id: Some(1),
        cluster_name: Some("c".to_string()),
        name: Some("n".to_string()),
        alt_names: Some(String::new()),
        root_dir: None,
        auto_index: false,
        tls_on: false,
        tls_enforce: false,
        acme_on: false,
        tls_cert: None,
        tls_cert_start_date: None,
        tls_cert_end_date: None,
        tls_private_key: None,
        rate_limit: None,
        rate_limit_unit: Some(0),
        gmt_create: None,
        gmt_modified: None,
    }
}

#[test]
fn site_read_back_defaults() {
    let mut lrow = location_row(1, &location(None, "/", false, &[]), 1);
    lrow.id = Some(3);
    lrow.sni = None;
    lrow.connection_timeout = None;
    lrow.idle_timeout = None;
    lrow.client_max_body_size = None;
    lrow.proxy = Some(0);
    let back = match site_from_rows(&bare_row(), None, None, None, None, &vec![(lrow, vec![])]) {
        Ok(b) => b,
        Err(_) => panic!("read back failed"),
    };
    assert!(back.alt_names.is_empty());
    assert_eq!(back.rate_limit, 0);
    assert_eq!(back.rate_limit_unit, 1000);
    let l = &back.locations[0];
    assert_eq!(l.sni, "$host");
    assert_eq!(l.connection_timeout, 5);
    assert_eq!(l.idle_timeout, 60);
    assert_eq!(l.client_max_body_size, 0);
    assert!(!l.proxy);
}

#[test]
fn site_read_back_errors_in_order() {
    let mut r = bare_row();
    r.cluster_name = None;
    r.name = None;
    assert!(matches!(site_from_rows(&r, None, None, None, None, &vec![]), Err(SiteError::ClusterNull)));
    let mut r = bare_row();
    r.name = None;
    assert!(matches!(site_from_rows(&r, None, None, None, None, &vec![]), Err(SiteError::NameNull)));
    let mut r = bare_row();
    r.id = None;
    assert!(matches!(site_from_rows(&r, None, None, None, None, &vec![]), Err(SiteError::IdNull)));
    let lrow = location_row(1, &location(None, "/", false, &[]), 1);
    assert!(matches!(
        site_from_rows(&bare_row(), None, None, None, None, &vec![(lrow, vec![])]),
        Err(SiteError::LocationIdNull)
    ));
}

#[test]
fn certificate_update_changes_only_certificate() {
    let stored = site_row(&site(vec![]), 1);
    let r = cert_updated_site_row(
        stored,
        TlsCert { pem: "NEW".to_string(), not_before: 10, not_after: 20 },
        "K2".to_string(),
        30,
    );
    assert_eq!(r.tls_cert.as_deref(), Some("NEW"));
    assert_eq!(r.tls_cert_start_date, Some(10));
    assert_eq!(r.tls_cert_end_date, Some(20));
    assert_eq!(r.tls_private_key.as_deref(), Some("K2"));
    assert_eq!(r.gmt_modified, Some(30));
    assert_eq!(r.gmt_create, Some(1));
    assert_eq!(r.name.as_deref(), Some("example.com"));
}

#[test]
fn site_error_messages() {
    assert_eq!(SiteError::LocationEmpty.message_text(), "Location is empty");
    assert_eq!(SiteError::BackendsEmpty("/api".to_string()).message_text(), "Location '/api' backends is empty.");
    assert_eq!(SiteError::ServerNotFound.message_text(), "Server not found.");
    assert_eq!(SiteError::ServerIdNotFound.message_text(), "Server id not found.");
    assert_eq!(SiteError::HostEmpty.message_text(), "Host is empty");
}

#[test]
fn port_errors_read_as_parse_errors() {
    for p in ["", "8a", "+", "-1", "70000", "+99999"] {
        let expected = p.parse::<u16>().unwrap_err().to_string();
        assert_eq!(port_error_text(p), expected);
        assert_eq!(SiteError::InvalidPort(p.to_string()).message_text(), expected);
    }
}

#[test]
fn site_without_alternative_names_reads_back_without_them() {
    let mut s = site(vec![location(None, "/", false, &[])]);
    s.alt_names = vec![];
    let mut row = site_row(&s, 1);
    assert_eq!(row.alt_names, Some(String::new()));
    row.id = Some(2);
    let back = match site_from_rows(&row, None, None, None, None, &vec![]) {
        Ok(b) => b,
        Err(_) => panic!("read back failed"),
    };
    assert!(back.alt_names.is_empty());
    assert_eq!(back.name, s.name);
}
