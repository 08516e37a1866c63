use home_dashboard::creds::check;

#[test]
fn accepts_the_configured_pair() {
    assert!(check("admin", "raspberry"));
}

#[test]
fn rejects_wrong_password() {
    assert!(!check("admin", "wrong"));
}

#[test]
fn rejects_wrong_username() {
    assert!(!check("root", "raspberry"));
}

#[test]
fn rejects_case_variants() {
    assert!(!check("Admin", "raspberry"));
    assert!(!check("admin", "Raspberry"));
    assert!(!check("ADMIN", "RASPBERRY"));
}

#[test]
fn rejects_empty_strings() {
    assert!(!check("", ""));
    assert!(!check("admin", ""));
    assert!(!check("", "raspberry"));
}

#[test]
fn rejects_swapped_pair() {
    assert!(!check("raspberry", "admin"));
}
