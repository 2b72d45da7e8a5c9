use aigw_console::binds::SqlValue;
use aigw_console::records::{TbClusterIpCidr, TbSite, TbTask};

fn ip_row() -> TbClusterIpCidr {
    TbClusterIpCidr {
        id: None,
        cluster_name: Some("c1".to_string()),
        ip: Some("10.0.0.0".to_string()),
        prefix_len: Some(8),
        ip_type: Some(1),
        start_time: None,
        end_time: None,
        gmt_create: None,
        gmt_modified: None,
    }
}

#[test]
fn address_range_insert_binds_present_values_in_order() {
    let r = ip_row();
    assert_eq!(r.insert_sql(), "INSERT INTO tb_cluster_ip_cidr (cluster_name,ip,prefix_len,`type`) VALUES (?,?,?,?)");
    assert_eq!(
        r.insert_values(),
        vec![
            SqlValue::Text("c1".to_string()),
            SqlValue::Text("10.0.0.0".to_string()),
            SqlValue::I32(8),
            SqlValue::I8(1),
        ]
    );
}

#[test]
fn address_range_update_binds_set_values_then_id() {
    let mut r = ip_row();
    r.id = Some(3);
    r.gmt_modified = Some(100);
    assert_eq!(
        r.update_by_id_sql(),
        "UPDATE tb_cluster_ip_cidr SET cluster_name = ?,ip = ?,prefix_len = ?,`type` = ?,gmt_modified = ? WHERE id = ?"
    );
    assert_eq!(
        r.update_by_id_values(3),
        vec![
            SqlValue::Text("c1".to_string()),
            SqlValue::Text("10.0.0.0".to_string()),
            SqlValue::I32(8),
            SqlValue::I8(1),
            SqlValue::Time(100),
            SqlValue::I64(3),
        ]
    );
}

#[test]
fn task_insert_and_update_binds() {
    let t = TbTask { id: None, name: Some("analytics_minute_c1".to_string()), task_type: Some(1), last_time: None, gmt_create: None, gmt_modified: None };
    assert_eq!(t.insert_sql(), "INSERT INTO tb_task (name,type) VALUES (?,?)");
    assert_eq!(t.insert_values(), vec![SqlValue::Text("analytics_minute_c1".to_string()), SqlValue::I32(1)]);
    let u = TbTask { id: None, name: None, task_type: None, last_time: Some(7), gmt_create: None, gmt_modified: Some(8) };
    assert_eq!(
        u.update_by_name_and_type_values("n".to_string(), 2),
        vec![SqlValue::Time(7), SqlValue::Time(8), SqlValue::Text("n".to_string()), SqlValue::I32(2)]
    );
}

#[test]
fn site_binds_flags_last() {
    let s = TbSite {
        id: Some(1),
        cluster_name: Some("c".to_string()),
        name: None,
        alt_names: None,
        root_dir: None,
        auto_index: true,
        tls_on: false,
        tls_enforce: true,
        acme_on: false,
        tls_cert: None,
        tls_cert_start_date: None,
        tls_cert_end_date: None,
        tls_private_key: None,
        rate_limit: Some(5),
        rate_limit_unit: None,
        gmt_create: None,
        gmt_modified: None,
    };
    assert_eq!(
        s.insert_values(),
        vec![
            SqlValue::I64(1),
            SqlValue::Text("c".to_string()),
            SqlValue::I64(5),
            SqlValue::Bool(true),
            SqlValue::Bool(false),
            SqlValue::Bool(true),
            SqlValue::Bool(false),
        ]
    );
    assert_eq!(s.insert_sql(), "INSERT INTO tb_site (id,cluster_name,rate_limit,auto_index,tls_on,tls_enforce,acme_on) VALUES (?,?,?,?,?,?,?)");
}
