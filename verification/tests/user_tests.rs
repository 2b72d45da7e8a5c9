use aigw_console::records::{TbSession, TbUser};
use sha::utils::{Digest, DigestExt};
use aigw_console::user::{
    avatar_url, bearer_token, check_password, default_admin_row, ext_info_update_row, login_token,
    lookup_by_email, md5_hex, new_session_row, password_update_row, profile_update_row,
    session_is_open, touched_session, user_profile, UserError, UserPassword, UserProfile,
};

fn user(name: Option<&str>, email: Option<&str>, password: Option<&str>) -> TbUser {
    TbUser {
        id: Some(1),
        name: name.map(|s| s.to_string()),
        email: email.map(|s| s.to_string()),
        password: password.map(|s| s.to_string()),
        real_name: None,
        ext_info: None,
        gmt_create: None,
        gmt_modified: None,
    }
}

#[test]
fn md5_of_admin() {
    assert_eq!(md5_hex("admin"), "21232f297a57a5a743894a0e4a801fc3");
    assert_eq!(md5_hex(""), "d41d8cd98f00b204e9800998ecf8427e");
}

#[test]
fn avatar_is_mirror_and_md5_of_mail() {
    assert_eq!(
        avatar_url("admin@test.test"),
        format!("https://dn-qiniu-avatar.qbox.me/avatar/{}", md5_hex("admin@test.test"))
    );
}

#[test]
fn lookup_by_mail_when_at_sign() {
    assert!(lookup_by_email("a@b.c"));
    assert!(!lookup_by_email("admin"));
}

#[test]
fn login_token_is_sha256_hex() {
    let mut h = sha::sha256::Sha256::default();
    h.digest(b"alice-secret-10.0.0.1");
    let expected = hex::encode(h.to_bytes());
    let t = login_token("alice", "secret", "10.0.0.1");
    assert_eq!(t, expected);
    assert_eq!(t.len(), 64);
    assert_ne!(t, login_token("alice", "secret", "10.0.0.2"));
}

#[test]
fn password_check_outcomes() {
    let admin_pw = md5_hex("admin");
    let u = Some(user(Some("admin"), Some("a@x.org"), Some(&admin_pw)));
    let c = check_password(&u, &admin_pw).ok().expect("checked");
    assert!(c.matched);
    assert!(c.reset);
    assert_eq!(c.name, "admin");
    let c = check_password(&u, "wrong").ok().expect("checked");
    assert!(!c.matched);
    assert!(!c.reset);
    let u = Some(user(Some("bob"), Some("admin@test.test"), Some("pw")));
    let c = check_password(&u, "pw").ok().expect("checked");
    assert!(c.reset);
    let u = Some(user(Some("bob"), Some("bob@x.org"), Some("pw")));
    let c = check_password(&u, "pw").ok().expect("checked");
    assert!(c.matched && !c.reset);
}

#[test]
fn password_check_errors() {
    assert!(matches!(check_password(&None, "p"), Err(UserError::NotFound)));
    assert!(matches!(check_password(&Some(user(None, None, None)), "p"), Err(UserError::NameMissing)));
    assert!(matches!(check_password(&Some(user(Some("a"), None, None)), "p"), Err(UserError::EmailMissing)));
    assert!(matches!(check_password(&Some(user(Some("a"), Some("e"), None)), "p"), Err(UserError::PasswordMissing)));
}

#[test]
fn installed_admin_is_asked_to_reset() {
    let row = default_admin_row(3);
    assert_eq!(row.name.as_deref(), Some("admin"));
    assert_eq!(row.email.as_deref(), Some("admin@test.test"));
    assert_eq!(row.password.as_deref(), Some("21232f297a57a5a743894a0e4a801fc3"));
    assert_eq!(row.real_name.as_deref(), Some("Admin"));
    let c = check_password(&Some(row), "21232f297a57a5a743894a0e4a801fc3").ok().expect("checked");
    assert!(c.matched && c.reset);
}

#[test]
fn sessions_last_half_an_hour() {
    assert!(session_is_open(Some(1000), 2799));
    assert!(!session_is_open(Some(1000), 2800));
    assert!(!session_is_open(None, 0));
    assert!(session_is_open(Some(i64::MAX), i64::MAX));
}

#[test]
fn bearer_tokens() {
    assert_eq!(bearer_token("Bearer abc"), Some("abc".to_string()));
    assert_eq!(bearer_token("Bearer "), Some(String::new()));
    assert_eq!(bearer_token("bearer abc"), None);
    assert_eq!(bearer_token("Basic xyz"), None);
    assert_eq!(bearer_token("Bear"), None);
}

#[test]
fn user_rows() {
    let s = new_session_row("n".to_string(), "e".to_string(), "1.2.3.4", "tok", 9);
    assert_eq!(s.login_ip.as_deref(), Some("1.2.3.4"));
    assert_eq!(s.token.as_deref(), Some("tok"));
    assert_eq!(s.gmt_create, Some(9));
    let t: TbSession = touched_session(s, 20);
    assert_eq!(t.gmt_create, Some(9));
    assert_eq!(t.gmt_modified, Some(20));
    let p = profile_update_row(UserProfile { name: "n2".to_string(), email: "e2".to_string(), avatar: None }, 4);
    assert_eq!(p.name.as_deref(), Some("n2"));
    assert_eq!(p.password, None);
    let p = password_update_row(UserPassword { password: "old".to_string(), new_password: "new".to_string() }, 4);
    assert_eq!(p.password.as_deref(), Some("new"));
    assert_eq!(p.name, None);
    let p = ext_info_update_row("{}".to_string(), 4);
    assert_eq!(p.ext_info.as_deref(), Some("{}"));
    let prof = user_profile(&user(Some("n"), Some("e@x"), None));
    assert_eq!(prof.avatar, Some(avatar_url("e@x")));
}
