use hypertyper::convention::matches_user_agent_convention;
use hypertyper::is_valid_user_agent;
use hypertyper::HTTPClientFactory;
use regex::Regex;

#[test]
fn it_returns_user_agent_with_version_number() {
    let factory = HTTPClientFactory::new("hypertyper", "0.1.0");
    let user_agent = factory.user_agent();
    let version_re = Regex::new(r"^[a-z]+ v\d+\.\d+\.\d+(-(alpha|beta)(\.\d+)?)?$").unwrap();
    assert!(
        version_re.is_match(user_agent),
        "{} does not match {}",
        user_agent,
        version_re,
    );
}

#[test]
fn with_user_agent_round_trips_identity() {
    let factory = HTTPClientFactory::with_user_agent("my cool user agent");
    assert_eq!(factory.user_agent(), "my cool user agent");
}

#[test]
fn with_user_agent_accepts_empty_identity() {
    let factory = HTTPClientFactory::with_user_agent("");
    assert_eq!(factory.user_agent(), "");
}

#[test]
fn new_formats_name_and_version() {
    let factory = HTTPClientFactory::new("foo", "1.2.3");
    assert_eq!(factory.user_agent(), "foo v1.2.3");
}

#[test]
fn new_round_trips_identity_parts() {
    let factory = HTTPClientFactory::new("hypertyper", "0.1.0-beta.2");
    let user_agent = factory.user_agent();
    assert!(user_agent.starts_with("hypertyper"));
    assert!(user_agent.ends_with("0.1.0-beta.2"));
}

#[test]
fn convention_checker_agrees_with_pattern() {
    let version_re = Regex::new(r"^[a-z]+ v\d+\.\d+\.\d+(-(alpha|beta)(\.\d+)?)?$").unwrap();
    let samples = vec![
        "hypertyper v0.1.0",
        "foo v1.2.3",
        "foo v1.2.3-alpha",
        "foo v1.2.3-beta",
        "foo v1.2.3-alpha.1",
        "foo v1.2.3-beta.12",
        "foo v10.20.30",
        "",
        "foo",
        "Foo v1.2.3",
        "foo 1.2.3",
        "foo v1.2",
        "foo v1.2.3.4",
        "foo v1.2.3-gamma",
        "foo v1.2.3-alpha.",
        "foo v1.2.3-alphax",
        "foo v1.2.3-beta.x",
        "foo v1.2.3 ",
        " foo v1.2.3",
        "foo  v1.2.3",
        "foo vv1.2.3",
        "foo v.1.2.3",
        "foo v1..2.3",
        "foo1 v1.2.3",
        "foo v1.2.3-",
        "foo v1.2.3-alpha.1.2",
    ];
    for s in samples {
        assert_eq!(
            matches_user_agent_convention(s),
            version_re.is_match(s),
            "checker disagrees with the pattern on {:?}",
            s
        );
    }
}

#[test]
fn conventional_identity_matches_convention() {
    let factory = HTTPClientFactory::new("hypertyper", "0.1.0");
    assert!(matches_user_agent_convention(factory.user_agent()));
}

#[test]
fn create_builds_a_client_for_a_valid_identity() {
    let factory = HTTPClientFactory::new("hypertyper", "0.1.0");
    assert!(is_valid_user_agent(factory.user_agent()));
    let client = factory.create();
    let _ = client.clone();
}

#[test]
fn user_agent_validity_follows_header_rules() {
    assert!(is_valid_user_agent("hypertyper v0.1.0"));
    assert!(is_valid_user_agent(""));
    assert!(is_valid_user_agent("tab\tis fine"));
    assert!(is_valid_user_agent("non-ascii is fine: \u{00e9}"));
    assert!(!is_valid_user_agent("no newline\n"));
    assert!(!is_valid_user_agent("no delete\u{007f}"));
}
