use link_yeeter::urls::{
    contains_string, extract_urls, find_link, get_url_info, netloc_of, URLsFound,
};

fn allowlist() -> Vec<String> {
    vec!["youtube.com".to_owned(), "tiktok.com".to_owned()]
}

#[test]
fn sites_reduce_to_their_last_two_labels() {
    assert_eq!(netloc_of("www.youtube.com"), "youtube.com");
    assert_eq!(netloc_of("vm.tiktok.com"), "tiktok.com");
    assert_eq!(netloc_of("youtube.com"), "youtube.com");
    assert_eq!(netloc_of("localhost"), "localhost");
    assert_eq!(netloc_of(""), "");
    assert_eq!(netloc_of("a.b.c.d"), "c.d");
}

#[test]
fn list_membership_is_exact() {
    let list = allowlist();
    assert!(contains_string(&list, "youtube.com"));
    assert!(!contains_string(&list, "youtube.co"));
    assert!(!contains_string(&list, "example.com"));
    assert!(!contains_string(&Vec::new(), "youtube.com"));
}

#[test]
fn a_message_without_urls_yields_nothing() {
    assert!(matches!(get_url_info("hello there", &allowlist()), URLsFound::NoUrls));
    assert!(matches!(get_url_info("", &allowlist()), URLsFound::NoUrls));
}

#[test]
fn a_single_supported_url_is_accepted() {
    let msg = "look at https://www.youtube.com/watch?v=abc now";
    match get_url_info(msg, &allowlist()) {
        URLsFound::One { url, supported } => {
            assert_eq!(url, "https://www.youtube.com/watch?v=abc");
            assert!(supported);
        }
        _ => panic!("expected one URL"),
    }
}

#[test]
fn a_single_unsupported_url_is_flagged() {
    let msg = "look at https://example.com/v";
    match get_url_info(msg, &allowlist()) {
        URLsFound::One { supported, .. } => assert!(!supported),
        _ => panic!("expected one URL"),
    }
}

#[test]
fn the_url_is_normalized() {
    // url normalizes a bare authority to a trailing-slash form
    match get_url_info("see https://youtube.com", &allowlist()) {
        URLsFound::One { url, .. } => assert_eq!(url, "https://youtube.com/"),
        _ => panic!("expected one URL"),
    }
}

#[test]
fn two_urls_are_too_many() {
    let msg = "https://youtube.com/a and https://tiktok.com/b";
    assert!(matches!(get_url_info(msg, &allowlist()), URLsFound::Multiple));
}

#[test]
fn find_link_returns_the_span_as_written() {
    let msg = "see https://www.youtube.com/watch?v=abc";
    assert_eq!(
        find_link(msg, &allowlist()),
        Some("https://www.youtube.com/watch?v=abc".to_owned())
    );
}

#[test]
fn find_link_enforces_the_allowlist() {
    assert_eq!(find_link("see https://example.com/v", &allowlist()), None);
    assert_eq!(find_link("no links", &allowlist()), None);
    assert_eq!(
        find_link("https://youtube.com/a https://youtube.com/b", &allowlist()),
        None
    );
}

#[test]
fn the_message_wins_over_the_reply() {
    let reply = "https://tiktok.com/reply".to_owned();
    match extract_urls("https://youtube.com/msg", Some(&reply), &allowlist()) {
        URLsFound::One { url, .. } => assert_eq!(url, "https://youtube.com/msg"),
        _ => panic!("expected one URL"),
    }
}

#[test]
fn the_reply_is_the_fallback() {
    let reply = "https://tiktok.com/reply".to_owned();
    match extract_urls("no links here", Some(&reply), &allowlist()) {
        URLsFound::One { url, supported } => {
            assert_eq!(url, "https://tiktok.com/reply");
            assert!(supported);
        }
        _ => panic!("expected one URL"),
    }
}

#[test]
fn without_urls_anywhere_nothing_is_found() {
    let reply = "still no links".to_owned();
    assert!(matches!(
        extract_urls("no links here", Some(&reply), &allowlist()),
        URLsFound::NoUrls
    ));
    assert!(matches!(extract_urls("no links here", None, &allowlist()), URLsFound::NoUrls));
}
