use pwned::endpoints::{Clientv2, BREACHES_URL};

#[test]
fn account_url_with_domain_and_truncation() {
    let client = Clientv2::new("test-rust-client");
    let mut req = client.get_breaches_acct("test@example.com");
    req.set_domain("example.com").set_truncate(true);
    let url = req.build_url().unwrap();
    assert!(url.contains("domain=example.com"));
    assert!(url.contains("truncateResponse=true"));
    assert!(url.find("domain=").unwrap() < url.find("truncateResponse=").unwrap());
    assert_eq!(url.matches('?').count(), 1);
    assert_eq!(
        url,
        "https://haveibeenpwned.com/api/v2/breachedaccount/test@example.com?domain=example.com&truncateResponse=true"
    );
    assert_eq!(req.build_url().unwrap(), url);
}

#[test]
fn account_url_plain() {
    let client = Clientv2::new("ua");
    let req = client.get_breaches_acct("someone");
    assert_eq!(
        req.build_url().unwrap(),
        "https://haveibeenpwned.com/api/v2/breachedaccount/someone"
    );
    let mut req = client.get_breaches_acct("someone");
    req.set_truncate(true);
    assert_eq!(
        req.build_url().unwrap(),
        "https://haveibeenpwned.com/api/v2/breachedaccount/someone?truncateResponse=true"
    );
}

#[test]
fn account_is_path_escaped_and_domain_form_encoded() {
    let client = Clientv2::new("ua");
    let mut req = client.get_breaches_acct("john doe");
    req.set_domain("a b&c");
    assert_eq!(
        req.build_url().unwrap(),
        "https://haveibeenpwned.com/api/v2/breachedaccount/john%20doe?domain=a+b%26c"
    );
}

#[test]
fn all_breaches_url() {
    let client = Clientv2::new("ua");
    let mut req = client.get_breaches();
    assert_eq!(req.build_url().unwrap(), BREACHES_URL);
    req.set_domain("adobe.com");
    assert_eq!(
        req.build_url().unwrap(),
        "https://haveibeenpwned.com/api/v2/breaches?domain=adobe.com"
    );
}

#[test]
fn single_breach_and_data_class_urls() {
    let client = Clientv2::new("ua");
    assert_eq!(
        client.get_breach("Adobe").build_url(),
        "https://haveibeenpwned.com/api/v2/breach/Adobe"
    );
    assert_eq!(
        client.get_data_classes().build_url(),
        "https://haveibeenpwned.com/api/v2/dataclasses"
    );
}

#[test]
fn paste_url() {
    let client = Clientv2::new("ua");
    assert_eq!(
        client.get_pastes("test@example.com").build_url().unwrap(),
        "https://haveibeenpwned.com/api/v2/pasteaccount/test@example.com"
    );
    assert_eq!(
        client.get_pastes("a b").build_url().unwrap(),
        "https://haveibeenpwned.com/api/v2/pasteaccount/a%20b"
    );
}

#[test]
fn requests_carry_their_parameters() {
    let client = Clientv2::new("test-rust-client");
    assert_eq!(client.user_agent, "test-rust-client");
    let req = client.get_breaches_acct("x@y.z");
    assert_eq!(req.user_agent, "test-rust-client");
    assert_eq!(req.account, "x@y.z");
    assert!(!req.truncate);
    assert_eq!(req.domain, None);
    assert_eq!(client.get_breach("Adobe").name, "Adobe");
    assert_eq!(client.get_pastes("p").account, "p");
    assert_eq!(client.get_breaches().domain, None);
    assert_eq!(client.get_data_classes().user_agent, "test-rust-client");
}
