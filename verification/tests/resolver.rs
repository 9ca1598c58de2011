use coub_clip::resolve_identifier;

#[test]
fn bare_identifier_is_unchanged() {
    assert_eq!(resolve_identifier("abc123"), "abc123");
}

#[test]
fn url_resolves_to_last_segment() {
    assert_eq!(resolve_identifier("https://coub.com/view/abc123"), "abc123");
}

#[test]
fn url_with_trailing_slash_resolves_to_last_nonempty_segment() {
    assert_eq!(resolve_identifier("https://coub.com/view/abc123/"), "abc123");
}

#[test]
fn url_without_path_segments_falls_back_to_input() {
    assert_eq!(
        resolve_identifier("https://coub.com"),
        "https://coub.com"
    );
}

#[test]
fn cannot_be_a_base_url_falls_back_to_input() {
    assert_eq!(
        resolve_identifier("mailto:someone@example.com"),
        "mailto:someone@example.com"
    );
}

#[test]
fn not_a_url_is_returned_verbatim() {
    assert_eq!(resolve_identifier("not a url at all"), "not a url at all");
}
