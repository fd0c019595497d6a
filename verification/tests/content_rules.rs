use session_auth::content::{
    apply_article_update, apply_book_update, build_article_content, build_book_content,
    markdown_to_html, validate_article_update, validate_new_article, ContentError,
};
use session_auth::password::{hash_password, verify_password, MalformedHash};
use session_auth::slug::{generate_slug, make_unique_slug};

#[test]
fn markdown_renders_and_is_sanitized() {
    // If rendering handed its input back unchanged, there would be no
    // heading markup; if sanitization did, the script would survive.
    assert_eq!(markdown_to_html("# Hi"), "<h1>Hi</h1>\n");
    let cleaned = markdown_to_html("hello <script>alert(1)</script> world");
    assert!(!cleaned.contains("<script>"));
    assert!(cleaned.contains("hello"));
}

#[test]
fn title_validation_bounds() {
    assert!(validate_new_article("t", "body").is_ok());
    assert_eq!(validate_new_article("", "body"), Err(ContentError::InvalidTitle));
    let long = "x".repeat(201);
    assert_eq!(validate_new_article(&long, "body"), Err(ContentError::InvalidTitle));
    let exactly = "x".repeat(200);
    assert!(validate_new_article(&exactly, "body").is_ok());
    assert_eq!(validate_new_article("t", ""), Err(ContentError::EmptyMarkdown));
    // The title bound is checked before the body.
    assert_eq!(validate_new_article("", ""), Err(ContentError::InvalidTitle));
    assert_eq!(
        ContentError::InvalidTitle.message(),
        "Title must be between 1 and 200 characters"
    );
    assert_eq!(ContentError::EmptyMarkdown.message(), "Markdown must not be empty");
}

#[test]
fn update_validation_only_checks_present_fields() {
    assert!(validate_article_update(None, None).is_ok());
    assert!(validate_article_update(Some("t"), None).is_ok());
    assert_eq!(validate_article_update(Some(""), None), Err(ContentError::InvalidTitle));
    assert_eq!(validate_article_update(None, Some("")), Err(ContentError::EmptyMarkdown));
    assert_eq!(validate_article_update(Some(""), Some("")), Err(ContentError::InvalidTitle));
}

#[test]
fn building_content_renders_html_and_defaults_unpublished() {
    let a = build_article_content("T".to_string(), "# Hi".to_string(), None);
    assert_eq!(a.title, "T");
    assert_eq!(a.markdown, "# Hi");
    assert_eq!(a.html, "<h1>Hi</h1>\n");
    assert!(!a.published);
    let b = build_book_content(
        "B".to_string(),
        "b-slug".to_string(),
        "*x*".to_string(),
        Some("https://img".to_string()),
        Some(true),
    );
    assert_eq!(b.slug, "b-slug");
    assert_eq!(b.html, "<p><em>x</em></p>\n");
    assert_eq!(b.image_url.as_deref(), Some("https://img"));
    assert!(b.published);
}

#[test]
fn article_update_merges_fields_and_rerenders_only_on_new_markdown() {
    let current = build_article_content("old".to_string(), "# Old".to_string(), Some(true));
    let unchanged = apply_article_update(
        build_article_content("old".to_string(), "# Old".to_string(), Some(true)),
        Some("new title".to_string()),
        None,
        None,
    );
    assert_eq!(unchanged.title, "new title");
    assert_eq!(unchanged.markdown, "# Old");
    assert_eq!(unchanged.html, current.html);
    assert!(unchanged.published);

    let rerendered = apply_article_update(current, None, Some("# New".to_string()), Some(false));
    assert_eq!(rerendered.title, "old");
    assert_eq!(rerendered.markdown, "# New");
    assert_eq!(rerendered.html, "<h1>New</h1>\n");
    assert!(!rerendered.published);
}

#[test]
fn book_update_keeps_stored_image_when_none_arrives() {
    let current = build_book_content(
        "B".to_string(),
        "s".to_string(),
        "m".to_string(),
        Some("kept".to_string()),
        None,
    );
    let updated = apply_book_update(current, Some("B2".to_string()), None, None, None, None);
    assert_eq!(updated.title, "B2");
    assert_eq!(updated.slug, "s");
    assert_eq!(updated.image_url.as_deref(), Some("kept"));
    let replaced = apply_book_update(updated, None, None, None, Some("new".to_string()), None);
    assert_eq!(replaced.image_url.as_deref(), Some("new"));
}

#[test]
fn password_hash_verifies_and_rejects() {
    let h = hash_password("open sesame").expect("hashing must succeed");
    assert_eq!(h.len(), 60);
    assert_eq!(verify_password("open sesame", &h), Ok(true));
    assert_eq!(verify_password("open-sesame", &h), Ok(false));
}

#[test]
fn malformed_stored_hash_is_an_internal_error() {
    assert_eq!(verify_password("pw", "not-a-hash"), Err(MalformedHash));
    assert_eq!(verify_password("pw", ""), Err(MalformedHash));
}

#[test]
fn two_hashes_of_one_password_differ_but_both_verify() {
    // The salt is drawn fresh each time.
    let h1 = hash_password("pw").expect("hashing must succeed");
    let h2 = hash_password("pw").expect("hashing must succeed");
    assert_ne!(h1, h2);
    assert_eq!(verify_password("pw", &h1), Ok(true));
    assert_eq!(verify_password("pw", &h2), Ok(true));
}

#[test]
fn slugs_lowercase_collapse_and_trim() {
    // If lower-casing handed its input back unchanged, the capitals
    // would survive; if the collapse pass did nothing, the punctuation
    // runs would.
    assert_eq!(generate_slug("Hello, World!"), "hello-world");
    assert_eq!(generate_slug("Rust 101"), "rust-101");
    assert_eq!(generate_slug("---a---"), "a");
    assert_eq!(generate_slug("already-a-slug"), "already-a-slug");
}

#[test]
fn slug_of_nothing_is_a_fresh_identifier() {
    let slug = generate_slug(" --- !!! ");
    assert_eq!(slug.len(), 36);
    assert!(uuid::Uuid::parse_str(&slug).is_ok());
}

#[test]
fn unique_slug_appends_an_eight_character_suffix() {
    let a = make_unique_slug("base");
    assert_eq!(a.len(), "base".len() + 9);
    assert!(a.starts_with("base-"));
    let b = make_unique_slug("base");
    assert_ne!(a, b, "two suffixes drawn freshly almost surely differ");
    assert!(a[5..].chars().all(|c| c.is_ascii_hexdigit()));
}
