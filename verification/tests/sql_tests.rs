use aigw_console::records::{TbBackend, TbChangeLog, TbUser};
use aigw_console::sql::{insert_statement, update_statement};

#[test]
fn insert_names_present_columns_only() {
    let sql = insert_statement("t", &[("a", true), ("b", false), ("c", true)]);
    assert_eq!(sql, "INSERT INTO t (a,c) VALUES (?,?)");
    let sql = insert_statement("t", &[("a", false)]);
    assert_eq!(sql, "INSERT INTO t () VALUES ()");
}

#[test]
fn update_sets_present_columns_only() {
    let sql = update_statement("t", &[("a", true), ("b", false), ("c", true)], "id = ?");
    assert_eq!(sql, "UPDATE t SET a = ?,c = ? WHERE id = ?");
}

#[test]
fn backend_insert_statement() {
    let b = TbBackend {
        id: None,
        location_id: Some(3),
        host: Some("10.0.0.1".to_string()),
        port: Some(80),
        gmt_create: Some(1),
        gmt_modified: Some(1),
    };
    assert_eq!(
        b.insert_sql(),
        "INSERT INTO tb_backend (location_id,host,port,gmt_create,gmt_modified) VALUES (?,?,?,?,?)"
    );
}

#[test]
fn user_update_statements() {
    let u = TbUser {
        id: None,
        name: None,
        email: None,
        password: Some("p".to_string()),
        real_name: None,
        ext_info: None,
        gmt_create: None,
        gmt_modified: Some(5),
    };
    assert_eq!(u.update_by_name_sql(), "UPDATE tb_user SET password = ?,gmt_modified = ? WHERE name = ?");
    assert_eq!(u.update_by_email_sql(), "UPDATE tb_user SET password = ?,gmt_modified = ? WHERE email = ?");
}

#[test]
fn change_log_insert_statement() {
    let c = TbChangeLog {
        id: None,
        cluster_name: Some("c".to_string()),
        log_type: Some(1),
        log_action: Some(2),
        data_id: Some(3),
        data: None,
        expire_second: Some(0),
        gmt_create: Some(1),
        gmt_modified: Some(1),
    };
    assert_eq!(
        c.insert_sql(),
        "INSERT INTO tb_change_log (cluster_name,log_type,log_action,data_id,expire_second,gmt_create,gmt_modified) VALUES (?,?,?,?,?,?,?)"
    );
}
