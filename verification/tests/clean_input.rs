use life_tracker::clean_input::sanitize_html;

#[test]
fn test_sanitize_html_removes_script_tags() {
    let input = "<script>alert('Hello');</script><p>Safe content</p>";
    let expected = "<p>Safe content</p>";
    assert_eq!(sanitize_html(input), expected);
}

#[test]
fn test_sanitize_html_allows_safe_tags() {
    let input = "<b>Bold</b> <i>Italic</i> <u>Underline</u>";
    let expected = "<b>Bold</b> <i>Italic</i> <u>Underline</u>";
    assert_eq!(sanitize_html(input), expected);
}

#[test]
fn test_sanitize_html_removes_unsafe_attributes() {
    let input = "<a href=\"javascript:alert('Hello')\">Click me</a>";
    let expected = "<a>Click me</a>";
    assert_eq!(sanitize_html(input), expected);
}

#[test]
fn test_sanitize_html_removes_sql_injection_attempts() {
    let input = "<div>Robert'); DROP TABLE Students;--</div>";
    let expected = "<div>Robert'); DROP TABLE Students;--</div>";
    assert_eq!(sanitize_html(input), expected);
}

#[test]
fn sanitize_keeps_plain_text() {
    assert_eq!(sanitize_html("just words"), "just words");
}

#[test]
fn sanitize_keeps_rel_and_adds_none() {
    let input = "<a href=\"https://rust-lang.org/\" rel=\"nofollow\">Rust</a>";
    assert_eq!(sanitize_html(input), input);
}

#[test]
fn sanitize_drops_unknown_attributes() {
    assert_eq!(sanitize_html("<span onclick=\"x()\">hi</span>"), "<span>hi</span>");
}
