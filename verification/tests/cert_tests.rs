use aigw_console::cert::{alt_names_match, certificate_domains, certificate_renewal_due, renewal_domains};

fn names(v: &[&str]) -> Vec<String> {
    v.iter().map(|s| s.to_string()).collect()
}

const DAY_NANOS: i128 = 86_400_000_000_000;

#[test]
fn alt_names_match_ignores_order_not_repeats() {
    assert!(alt_names_match(&names(&["a", "b"]), &names(&["b", "a"])));
    assert!(alt_names_match(&names(&[]), &names(&[])));
    assert!(!alt_names_match(&names(&["a", "a"]), &names(&["a"])));
    assert!(!alt_names_match(&names(&["a", "a", "b"]), &names(&["a", "b", "b"])));
    assert!(!alt_names_match(&names(&["a"]), &names(&["c"])));
}

#[test]
fn renewal_due_when_names_change_or_certificate_is_old() {
    let a = names(&["x"]);
    let b = names(&["y"]);
    let not_before = 1_000_000i64;
    let start = (not_before as i128) * 1_000_000_000;
    // same names, fresh certificate: no renewal
    assert!(!certificate_renewal_due(true, true, &a, &a, Some(not_before), start + DAY_NANOS));
    // names changed
    assert!(certificate_renewal_due(true, true, &a, &b, Some(not_before), start + DAY_NANOS));
    // no certificate yet
    assert!(certificate_renewal_due(true, true, &a, &a, None, start));
    // exactly thirty days is not more than thirty days
    assert!(!certificate_renewal_due(true, true, &a, &a, Some(not_before), start + 30 * DAY_NANOS));
    assert!(certificate_renewal_due(true, true, &a, &a, Some(not_before), start + 30 * DAY_NANOS + 1));
    // only sites with TLS and ACME on
    assert!(!certificate_renewal_due(false, true, &a, &b, None, start));
    assert!(!certificate_renewal_due(true, false, &a, &b, None, start));
}

#[test]
fn certificate_domains_name_first() {
    let d = certificate_domains(&"a.com".to_string(), &names(&["b.com", "c.com"]));
    assert_eq!(d, names(&["a.com", "b.com", "c.com"]));
}

#[test]
fn renewal_domains_skip_empty_pieces() {
    let d = renewal_domains(&"a.com".to_string(), &Some("b.com,,c.com,".to_string()));
    assert_eq!(d, names(&["a.com", "b.com", "c.com"]));
    let d = renewal_domains(&"a.com".to_string(), &None);
    assert_eq!(d, names(&["a.com"]));
    let d = renewal_domains(&"a.com".to_string(), &Some(String::new()));
    assert_eq!(d, names(&["a.com"]));
}
