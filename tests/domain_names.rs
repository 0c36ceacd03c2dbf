use addr::parse_domain_name;
use minoru_fediverse_crawler::domain::{Domain, DomainError, Host};

#[test]
fn accepts_only_host_domain() {
    assert!(Domain::from_host(&Host::Ipv4([127, 0, 0, 1])).is_err());
    assert!(Domain::from_host(&Host::Ipv6([0, 0, 0, 0, 0, 0, 0, 1])).is_err());
}

#[test]
fn accepts_only_domains_with_known_suffixes() {
    // Full URLs
    assert!(Domain::from_host(&Host::Domain("http://example.org/hello".to_string())).is_err());
    assert!(
        Domain::from_host(&Host::Domain("http://bar.example.org/goodbye#world".to_string()))
            .is_err()
    );
    assert!(Domain::from_host(&Host::Domain(
        "https://example.com/and/a/path?with=option".to_string()
    ))
    .is_err());
    assert!(Domain::from_host(&Host::Domain(
        "https://foo.example.com:81/and/a/path?with=option".to_string()
    ))
    .is_err());

    // IP addresses
    assert!(Domain::from_host(&Host::Domain("8.8.8.8".to_string())).is_err());
    assert!(Domain::from_host(&Host::Domain("127.0.0.1".to_string())).is_err());
    assert!(Domain::from_host(&Host::Domain("2001:4860:4860::8888".to_string())).is_err());
    assert!(Domain::from_host(&Host::Domain("[2001:4860:4860::8888]".to_string())).is_err());
    assert!(Domain::from_host(&Host::Domain("::1".to_string())).is_err());
    assert!(Domain::from_host(&Host::Domain("[::1]".to_string())).is_err());

    // Onion hidden services
    assert!(Domain::from_host(&Host::Domain("yzw45do3yrjfnbpr.onion".to_string())).is_ok());
    assert!(Domain::from_host(&Host::Domain(
        "zlzvfg5zcehs2t4qcm7woogyywfzwvrduqujsnehrjeg3tndn6a55nqd.onion".to_string()
    ))
    .is_ok());

    // I2P
    assert!(Domain::from_host(&Host::Domain("example.i2p".to_string())).is_err());

    // OpenNIC
    assert!(Domain::from_host(&Host::Domain("outdated.bbs".to_string())).is_err());
    // This one is dropped from OpenNIC and is coming to "real" DNS soon
    assert!(Domain::from_host(&Host::Domain("this.one.is.free".to_string())).is_ok());
}

#[test]
fn accepts_only_str_domains_with_known_suffixes() {
    // Full URLs
    assert!(Domain::from_str("http://example.org/hello").is_err());
    assert!(Domain::from_str("http://bar.example.org/goodbye#world").is_err());
    assert!(Domain::from_str("https://example.com/and/a/path?with=option").is_err());
    assert!(Domain::from_str("https://foo.example.com:81/and/a/path?with=option").is_err());

    // IP addresses
    assert!(Domain::from_str("8.8.8.8").is_err());
    assert!(Domain::from_str("127.0.0.1").is_err());
    assert!(Domain::from_str("2001:4860:4860::8888").is_err());
    assert!(Domain::from_str("[2001:4860:4860::8888]").is_err());
    assert!(Domain::from_str("::1").is_err());
    assert!(Domain::from_str("[::1]").is_err());

    // Onion hidden services
    assert!(Domain::from_str("yzw45do3yrjfnbpr.onion").is_ok());
    assert!(
        Domain::from_str("zlzvfg5zcehs2t4qcm7woogyywfzwvrduqujsnehrjeg3tndn6a55nqd.onion").is_ok()
    );

    // I2P
    assert!(Domain::from_str("example.i2p").is_err());

    // OpenNIC
    assert!(Domain::from_str("outdated.bbs").is_err());
    // This one is dropped from OpenNIC and is coming to "real" DNS soon
    assert!(Domain::from_str("this.one.is.free").is_ok());
}

#[test]
fn what_addr_accepts_and_rejects() {
    // Full URLs
    assert!(parse_domain_name("http://example.org/hello").is_err());
    assert!(parse_domain_name("http://bar.example.org/goodbye#world").is_err());
    assert!(parse_domain_name("https://example.com/and/a/path?with=option").is_err());
    assert!(parse_domain_name("https://foo.example.com:81/and/a/path?with=option").is_err());

    // IP addresses
    assert!(parse_domain_name("8.8.8.8").is_err());
    assert!(parse_domain_name("127.0.0.1").is_err());
    assert!(parse_domain_name("2001:4860:4860::8888").is_err());
    assert!(parse_domain_name("[2001:4860:4860::8888]").is_err());
    assert!(parse_domain_name("::1").is_err());
    assert!(parse_domain_name("[::1]").is_err());

    // Onion hidden services
    assert!(parse_domain_name("yzw45do3yrjfnbpr.onion")
        .unwrap()
        .has_known_suffix());
    assert!(
        parse_domain_name("zlzvfg5zcehs2t4qcm7woogyywfzwvrduqujsnehrjeg3tndn6a55nqd.onion")
            .unwrap()
            .has_known_suffix()
    );

    // I2P
    assert!(!parse_domain_name("example.i2p").unwrap().has_known_suffix());

    // OpenNIC
    assert!(!parse_domain_name("outdated.bbs").unwrap().has_known_suffix());
    // This one is dropped from OpenNIC and is coming to "real" DNS soon
    assert!(parse_domain_name("this.one.is.free")
        .unwrap()
        .has_known_suffix());
}

#[test]
fn domain_keeps_its_text() {
    let d = Domain::from_str("mastodon.social").unwrap();
    assert_eq!(d.as_str(), "mastodon.social");
    assert_eq!(d.to_string(), "mastodon.social".to_string());
    assert_eq!(d.clone(), d);
    assert!(d.same_as(&Domain::from_str("mastodon.social").unwrap()));
    assert!(!d.same_as(&Domain::from_str("pleroma.social").unwrap()));
}

#[test]
fn domain_errors_name_their_cause() {
    assert_eq!(Domain::from_str("[::1]").unwrap_err(), DomainError::Syntax);
    assert_eq!(Domain::from_str("example.i2p").unwrap_err(), DomainError::UnknownSuffix);
    assert_eq!(
        Domain::from_host(&Host::Ipv4([8, 8, 8, 8])).unwrap_err(),
        DomainError::Ipv4
    );
    assert_eq!(
        Domain::from_host(&Host::Ipv6([0x2001, 0x4860, 0x4860, 0, 0, 0, 0, 0x8888])).unwrap_err(),
        DomainError::Ipv6
    );
}
