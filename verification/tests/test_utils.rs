use voyageai::text::is_whitespace;
use voyageai::utils::extract_code_blocks;

#[test]
fn test_extract_code_blocks() {
    let markdown = r#"
Some text

```rust
fn test() {}
```

```
plain text
```
"#;

    let blocks = extract_code_blocks(markdown);
    assert_eq!(blocks.len(), 2);
    assert_eq!(blocks[0].language, Some("rust".to_string()));
    assert!(blocks[0].content.contains("fn test()"));
}

#[test]
fn code_block_content_is_exact() {
    let blocks = extract_code_blocks("```rust\nfn a() {}\nfn b() {}\n```\ntail\n");
    assert_eq!(blocks.len(), 1);
    assert_eq!(blocks[0].language, Some("rust".to_string()));
    assert_eq!(blocks[0].content, "fn a() {}\nfn b() {}\n");
}

#[test]
fn fence_language_is_trimmed() {
    let blocks = extract_code_blocks("````  python \t\r\nprint(1)\r\n````\n");
    assert_eq!(blocks.len(), 1);
    assert_eq!(blocks[0].language, Some("python".to_string()));
    assert_eq!(blocks[0].content, "print(1)\n");
}

#[test]
fn unclosed_block_ends_with_the_text() {
    let blocks = extract_code_blocks("intro\n```\nline one\nline two");
    assert_eq!(blocks.len(), 1);
    assert_eq!(blocks[0].language, None);
    assert_eq!(blocks[0].content, "line one\nline two\n");
}

#[test]
fn text_without_fences_has_no_blocks() {
    assert_eq!(extract_code_blocks("").len(), 0);
    assert_eq!(extract_code_blocks("just `inline` code\n``two ticks\n").len(), 0);
}

#[test]
fn indented_fence_does_not_open_a_block() {
    assert_eq!(extract_code_blocks("  ```rust\nfn a() {}\n  ```\n").len(), 0);
}

#[test]
fn white_space_is_what_the_standard_library_calls_so() {
    let mut seen = 0;
    for code in 0u32..=0x10ffff {
        if let Some(c) = char::from_u32(code) {
            assert_eq!(is_whitespace(c), c.is_whitespace(), "character {:?}", c);
            if is_whitespace(c) {
                seen += 1;
            }
        }
    }
    assert_eq!(seen, 25);
}

#[test]
fn fence_language_loses_every_kind_of_white_space() {
    let blocks = extract_code_blocks("```\u{a0}\u{2003}rust\u{3000}\u{85}\n```\n");
    assert_eq!(blocks.len(), 1);
    assert_eq!(blocks[0].language, Some("rust".to_string()));
}
