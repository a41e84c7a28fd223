use conti::image::{can_shorten, parse_image_ref, short_sha};

const DIGEST: &str = "0123456789abcdef0123456789abcdef0123456789abcdef0123456789abcdef";

#[test]
fn tag_is_split_off() {
    assert_eq!(parse_image_ref("nginx:1.25"), ("nginx", "1.25"));
    assert_eq!(parse_image_ref("registry/name:tag"), ("registry/name", "tag"));
    assert_eq!(parse_image_ref("ghcr.io/owner/app:v2"), ("ghcr.io/owner/app", "v2"));
}

#[test]
fn tag_falls_back_to_latest() {
    assert_eq!(parse_image_ref("nginx"), ("nginx", "latest"));
    assert_eq!(parse_image_ref("library/nginx"), ("library/nginx", "latest"));
    assert_eq!(parse_image_ref(""), ("", "latest"));
}

#[test]
fn port_of_a_registry_is_no_tag() {
    assert_eq!(parse_image_ref("localhost:5000/app"), ("localhost:5000/app", "latest"));
    assert_eq!(parse_image_ref("localhost:5000/app:3"), ("localhost:5000/app", "3"));
    assert_eq!(parse_image_ref("a:1/b:2/c"), ("a:1/b:2/c", "latest"));
}

#[test]
fn odd_references_are_split_at_the_last_colon() {
    assert_eq!(parse_image_ref(":"), ("", ""));
    assert_eq!(parse_image_ref("nginx:"), ("nginx", ""));
    assert_eq!(parse_image_ref(":tag"), ("", "tag"));
    assert_eq!(parse_image_ref("a:b:c"), ("a:b", "c"));
    assert_eq!(parse_image_ref("größe:höchste"), ("größe", "höchste"));
}

#[test]
fn halves_make_up_the_reference() {
    let (name, tag) = parse_image_ref("localhost:5000/app:3");
    assert_eq!(format!("{}:{}", name, tag), "localhost:5000/app:3");
    assert!(!tag.contains(':') && !tag.contains('/'));
}

#[test]
fn short_form_keeps_twelve_characters() {
    assert!(can_shorten(DIGEST));
    assert_eq!(short_sha(DIGEST), "0123456789ab");
}

#[test]
fn short_form_ignores_the_algorithm() {
    let id = format!("sha256:{}", DIGEST);
    assert!(can_shorten(&id));
    assert_eq!(short_sha(&id), "0123456789ab");
    assert_eq!(short_sha("sha256:abc"), "abc");
    assert_eq!(short_sha("sha256:"), "");
    assert_eq!(short_sha("sha256"), "sha256");
    assert_eq!(short_sha("sha512:0123456789"), "sha512:01234");
    assert_eq!(short_sha("sha256:sha256:0123456789"), "sha256:01234");
}

#[test]
fn short_id_is_kept_whole() {
    assert_eq!(short_sha(""), "");
    assert_eq!(short_sha("abc"), "abc");
    assert_eq!(short_sha("0123456789ab"), "0123456789ab");
    assert_eq!(short_sha("0123456789abc"), "0123456789ab");
}

#[test]
fn short_form_counts_bytes() {
    assert!(can_shorten("éééééééé"));
    assert_eq!(short_sha("éééééééé"), "éééééé");
    assert!(!can_shorten("0123456789aéé"));
    assert!(can_shorten("0123456789é"));
    assert_eq!(short_sha("0123456789é"), "0123456789é");
}
