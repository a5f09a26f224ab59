use wardrobe_platform::receipt_response::{
    accept_chunk, check_declared_length, check_received_length, hop_ordinal,
};
use wardrobe_platform::digest_text::sha256_hex;
use wardrobe_platform::address_policy::check_answer_count;
use wardrobe_platform::receipt_response::check_ok_status;
use wardrobe_platform::receipt_image_codes::ReceiptImageFailureCodeV1;
use wardrobe_platform::receipt_url::{
    download_start, follow_redirect, is_ipv4_literal, network_host, normalize_approved_host,
    validate_network_url, UrlHost,
};

#[test]
fn approved_hosts_are_normalized() {
    assert_eq!(normalize_approved_host("Example.COM.."), Ok("example.com".to_owned()));
    assert_eq!(normalize_approved_host("01.2.3.4"), Ok("01.2.3.4".to_owned()));
    for refused in ["", "...", "192.168.0.1", "a/b", "user@host", "host:443", "bücher.de"] {
        assert_eq!(
            normalize_approved_host(refused),
            Err(ReceiptImageFailureCodeV1::HostMismatch),
            "{refused}"
        );
    }
    let long = "a".repeat(254);
    assert_eq!(normalize_approved_host(&long), Err(ReceiptImageFailureCodeV1::HostMismatch));
    assert!(normalize_approved_host(&"a".repeat(253)).is_ok());
}

#[test]
fn ipv4_literals_follow_the_std_grammar() {
    for ip in ["1.2.3.4", "0.0.0.0", "255.255.255.255", "10.0.0.1"] {
        assert!(is_ipv4_literal(ip), "{ip}");
    }
    for other in ["256.1.1.1", "01.1.1.1", "1.2.3", "1.2.3.4.5", "1..2.3", "a.b.c.d", "1.2.3.4 ", ""] {
        assert!(!is_ipv4_literal(other), "{other}");
    }
}

#[test]
fn network_urls_must_be_https_domains_on_port_443() {
    let ok = validate_network_url("https://Images.Example.com:443/r.png?x=1#frag").unwrap();
    assert_eq!(ok.scheme, "https");
    assert_eq!(ok.port, None);
    assert_eq!(ok.known_port, Some(443));
    assert_eq!(ok.without_fragment, "https://images.example.com/r.png?x=1");
    assert_eq!(ok.host, UrlHost::Domain("images.example.com".to_owned()));
    let cases = [
        ("not a url", ReceiptImageFailureCodeV1::InvalidUrl),
        ("http://example.com/", ReceiptImageFailureCodeV1::SchemeRejected),
        ("https://user@example.com/", ReceiptImageFailureCodeV1::UserInfoRejected),
        ("https://:secret@example.com/", ReceiptImageFailureCodeV1::UserInfoRejected),
        ("https://1.2.3.4/", ReceiptImageFailureCodeV1::IpLiteralRejected),
        ("https://[::1]/", ReceiptImageFailureCodeV1::IpLiteralRejected),
        ("https://example.com:8443/", ReceiptImageFailureCodeV1::PortRejected),
    ];
    for (url, code) in cases {
        assert_eq!(validate_network_url(url).err(), Some(code), "{url}");
    }
    let long = format!("https://example.com/{}", "a".repeat(2_048));
    assert_eq!(validate_network_url(&long).err(), Some(ReceiptImageFailureCodeV1::InvalidUrl));
}

#[test]
fn network_host_is_lower_case_without_trailing_dots() {
    let url = validate_network_url("https://Example.COM./a").unwrap();
    assert_eq!(network_host(&url), Ok("example.com".to_owned()));
}

#[test]
fn download_starts_only_on_the_approved_host() {
    let (url, host) = download_start("https://example.com/r.png", "EXAMPLE.com.").unwrap();
    assert_eq!(host, "example.com");
    assert_eq!(url.without_fragment, "https://example.com/r.png");
    assert_eq!(
        download_start("https://other.com/r.png", "example.com").err(),
        Some(ReceiptImageFailureCodeV1::HostMismatch)
    );
    assert_eq!(
        download_start("https://example.com/r.png", "1.2.3.4").err(),
        Some(ReceiptImageFailureCodeV1::HostMismatch)
    );
    assert_eq!(
        download_start("http://example.com/r.png", "example.com").err(),
        Some(ReceiptImageFailureCodeV1::SchemeRejected)
    );
}

#[test]
fn redirects_stay_on_the_approved_host() {
    let current = validate_network_url("https://example.com/a/b.png").unwrap();
    let next = follow_redirect(0, &current, &[b"../c.png#part".to_vec()], "example.com").unwrap();
    assert_eq!(next.without_fragment, "https://example.com/c.png");
    let cases: [(usize, Vec<Vec<u8>>, ReceiptImageFailureCodeV1); 6] = [
        (3, vec![b"/c.png".to_vec()], ReceiptImageFailureCodeV1::RedirectLimit),
        (0, vec![], ReceiptImageFailureCodeV1::RedirectLocationRejected),
        (0, vec![b"/x".to_vec(), b"/y".to_vec()], ReceiptImageFailureCodeV1::HeaderLimit),
        (0, vec![b"/x\x01".to_vec()], ReceiptImageFailureCodeV1::HeaderLimit),
        (0, vec![b"https://other.com/c.png".to_vec()], ReceiptImageFailureCodeV1::RedirectCrossHost),
        (0, vec![b"http://example.com/c.png".to_vec()], ReceiptImageFailureCodeV1::SchemeRejected),
    ];
    for (count, locations, code) in cases {
        assert_eq!(follow_redirect(count, &current, &locations, "example.com").err(), Some(code));
    }
    let long = format!("/{}", "a".repeat(2_048)).into_bytes();
    assert_eq!(
        follow_redirect(0, &current, &[long], "example.com").err(),
        Some(ReceiptImageFailureCodeV1::HeaderLimit)
    );
}

#[test]
fn body_lengths_and_hops_are_bounded() {
    assert_eq!(check_declared_length(None), Ok(()));
    assert_eq!(check_declared_length(Some(8 * 1024 * 1024)), Ok(()));
    assert_eq!(
        check_declared_length(Some(8 * 1024 * 1024 + 1)),
        Err(ReceiptImageFailureCodeV1::BodyLimit)
    );
    assert_eq!(accept_chunk(8 * 1024 * 1024 - 10, 10), Ok(()));
    assert_eq!(accept_chunk(8 * 1024 * 1024 - 10, 11), Err(ReceiptImageFailureCodeV1::BodyLimit));
    assert_eq!(accept_chunk(usize::MAX, usize::MAX), Err(ReceiptImageFailureCodeV1::BodyLimit));
    assert_eq!(check_received_length(Some(5), 5), Ok(()));
    assert_eq!(check_received_length(None, 5), Ok(()));
    assert_eq!(
        check_received_length(Some(6), 5),
        Err(ReceiptImageFailureCodeV1::ContentLengthRejected)
    );
    assert_eq!(hop_ordinal(0), Ok(0));
    assert_eq!(hop_ordinal(255), Ok(255));
    assert_eq!(hop_ordinal(256), Err(ReceiptImageFailureCodeV1::RedirectLimit));
}

#[test]
fn digests_are_lower_case_hex() {
    assert_eq!(
        sha256_hex(b"abc"),
        "ba7816bf8f01cfea414140de5dae2223b00361a396177a9cb410ff61f20015ad"
    );
    assert_eq!(
        sha256_hex(b""),
        "e3b0c44298fc1c149afbf4c8996fb92427ae41e4649b934ca495991b7852b855"
    );
}

#[test]
fn statuses_and_dns_answers_are_checked() {
    assert_eq!(check_ok_status(200), Ok(()));
    assert_eq!(check_ok_status(204), Err(ReceiptImageFailureCodeV1::HttpStatusRejected));
    assert_eq!(check_ok_status(404), Err(ReceiptImageFailureCodeV1::HttpStatusRejected));
    assert_eq!(check_answer_count(0), Err(ReceiptImageFailureCodeV1::DnsAnswerLimit));
    assert_eq!(check_answer_count(1), Ok(()));
    assert_eq!(check_answer_count(16), Ok(()));
    assert_eq!(check_answer_count(17), Err(ReceiptImageFailureCodeV1::DnsAnswerLimit));
}
