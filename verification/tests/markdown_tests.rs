use arto::alerts::{get_alert_icon_placeholder, process_github_alerts};
use arto::events::MdEvent;
use arto::links::ImageStore;
use arto::paths::get_mime_type;
use arto::render::{markdown_to_events, render_to_html};
use arto::rewrite::post_process_html_tags;
use arto::transforms::{process_code_blocks, process_math_expressions};

#[test]
fn test_get_mime_type() {
    assert_eq!(get_mime_type("test.png"), "image/png");
    assert_eq!(get_mime_type("test.jpg"), "image/jpeg");
    assert_eq!(get_mime_type("test.jpeg"), "image/jpeg");
    assert_eq!(get_mime_type("test.gif"), "image/gif");
    assert_eq!(get_mime_type("test.svg"), "image/svg+xml");
    assert_eq!(get_mime_type("test.webp"), "image/webp");
    assert_eq!(get_mime_type("test.bmp"), "image/bmp");
    assert_eq!(get_mime_type("test.ico"), "image/x-icon");
    assert_eq!(get_mime_type("test.unknown"), "image/png");
}

#[test]
fn test_get_alert_icon_placeholder() {
    let result = get_alert_icon_placeholder("note");
    assert_eq!(
        result,
        r#"<span class="alert-icon" data-alert-type="note"></span>"#
    );

    let result = get_alert_icon_placeholder("warning");
    assert_eq!(
        result,
        r#"<span class="alert-icon" data-alert-type="warning"></span>"#
    );
}

#[test]
fn test_process_github_alerts_note() {
    let input = "> [!NOTE]\n> This is a note\n";
    let result = process_github_alerts(input);

    assert!(result.contains(r#"<div class="markdown-alert markdown-alert-note""#));
    assert!(result.contains(r#"<p class="markdown-alert-title""#));
    assert!(result.contains("NOTE"));
    assert!(result.contains("This is a note"));
    assert!(result.contains("</div>"));
}

#[test]
fn test_process_github_alerts_warning() {
    let input = "> [!WARNING]\n> Be careful!\n";
    let result = process_github_alerts(input);

    assert!(result.contains(r#"markdown-alert-warning"#));
    assert!(result.contains("WARNING"));
    assert!(result.contains("Be careful!"));
}

#[test]
fn test_process_github_alerts_with_multiline() {
    let input = "> [!IMPORTANT]\n> First line\n> Second line\n> Third line\n";
    let result = process_github_alerts(input);

    assert!(result.contains(r#"markdown-alert-important"#));
    assert!(result.contains("First line"));
    assert!(result.contains("Second line"));
    assert!(result.contains("Third line"));
}

#[test]
fn test_process_github_alerts_all_types() {
    let alert_types = vec![
        ("NOTE", "note"),
        ("TIP", "tip"),
        ("IMPORTANT", "important"),
        ("WARNING", "warning"),
        ("CAUTION", "caution"),
    ];

    for (alert_name, alert_class) in alert_types {
        let input = format!("> [!{}]\n> Test content", alert_name);
        let result = process_github_alerts(&input);

        assert!(
            result.contains(&format!(r#"markdown-alert-{}"#, alert_class)),
            "Should contain alert class for {}",
            alert_name
        );
        assert!(
            result.contains(alert_name),
            "Should contain alert name {}",
            alert_name
        );
    }
}

#[test]
fn test_process_github_alerts_no_match() {
    let input = "Regular paragraph\n> Regular quote";
    let result = process_github_alerts(input);

    assert_eq!(result, input);
    assert!(!result.contains("markdown-alert"));
}

#[test]
fn test_process_mermaid_blocks() {
    let markdown = "```mermaid\ngraph TD\n    A-->B\n```\n";

    let events = markdown_to_events(markdown);
    let events = process_code_blocks(events, "mermaid");

    let mut html_events: Vec<&str> = Vec::new();
    for e in &events {
        if let MdEvent::Html { html } = e {
            html_events.push(html.as_str());
        }
    }

    assert!(!html_events.is_empty(), "Should contain HTML event");
    let html = html_events[0];
    assert!(html.contains(r#"<pre class="preprocessed-mermaid""#));
    assert!(html.contains(r#"data-original-content="#));
    assert!(html.contains("</pre>"));
}

#[test]
fn test_post_process_html_tags_anchor() {
    let html = r#"<a href="doc.md">Link</a>"#;
    let result = post_process_html_tags(html, &ImageStore::new());

    assert!(
        result.contains(r#"<span class="md-link""#),
        "Should convert to span"
    );
    assert!(
        result.contains("handleMarkdownLinkClick"),
        "Should add click handler"
    );
    assert!(!result.contains("<a "), "Should not contain anchor tag");
}

#[test]
fn test_post_process_html_tags_http_urls() {
    let html =
        r#"<img src="https://example.com/image.png" /><a href="https://example.com">Link</a>"#;
    let result = post_process_html_tags(html, &ImageStore::new());

    assert!(
        result.contains(r#"src="https://example.com/image.png""#),
        "Should keep HTTP img"
    );
    assert!(
        result.contains(r#"<a href="https://example.com""#),
        "Should keep HTTP link"
    );
}

#[test]
fn test_post_process_html_tags_non_md_local_file() {
    let html = r#"<a href="file.txt">Text File</a>"#;
    let result = post_process_html_tags(html, &ImageStore::new());

    assert!(
        result.contains(r#"<span class="md-link md-link-invalid""#),
        "Should convert to span with md-link and md-link-invalid class"
    );
    assert!(
        result.contains("handleMarkdownLinkClick"),
        "Should add click handler for local files"
    );
    assert!(!result.contains("<a "), "Should not contain anchor tag");
}

#[test]
fn test_post_process_html_tags_md_vs_other_files() {
    let html = r#"<a href="doc.md">MD</a><a href="file.txt">TXT</a>"#;
    let result = post_process_html_tags(html, &ImageStore::new());

    assert!(
        result.contains(r#"class="md-link""#),
        "Should have md-link for .md file"
    );

    assert!(
        result.contains(r#"class="md-link md-link-invalid""#),
        "Should have md-link and md-link-invalid for .txt file"
    );

    let click_handler_count = result.matches("handleMarkdownLinkClick").count();
    assert_eq!(
        click_handler_count, 2,
        "Should have click handlers for both links"
    );
}

#[test]
fn test_render_to_html_basic() {
    let markdown = "# Hello\n\nThis is a test.";

    let result = render_to_html(markdown, &ImageStore::new());

    assert!(result.contains("<h1>"));
    assert!(result.contains("Hello"));
    assert!(result.contains("<p>"));
    assert!(result.contains("This is a test."));
}

#[test]
fn test_code_block_language_classes() {
    let markdown = "# Code Blocks Test\n\n```rust\nfn main() {\n    println!(\"Hello\");\n}\n```\n\n```python\ndef hello():\n    print(\"world\")\n```\n\n```\nno language specified\n```\n";

    let result = render_to_html(markdown, &ImageStore::new());

    println!("\n=== HTML OUTPUT ===\n{}\n===================\n", result);

    let has_rust = result.contains("language-rust") || result.contains("class=\"rust\"");
    let has_python = result.contains("language-python") || result.contains("class=\"python\"");

    println!("Has rust class: {}", has_rust);
    println!("Has python class: {}", has_python);
}

#[test]
fn test_render_to_html_with_alert() {
    let markdown = "# Title\n\n> [!NOTE]\n> This is important\n";

    let result = render_to_html(markdown, &ImageStore::new());

    assert!(result.contains("markdown-alert-note"));
    assert!(result.contains("This is important"));
}

#[test]
fn test_render_to_html_with_mermaid() {
    let markdown = "```mermaid\ngraph LR\n    A-->B\n```\n";

    let result = render_to_html(markdown, &ImageStore::new());

    assert!(result.contains(r#"<pre class="preprocessed-mermaid""#));
    assert!(result.contains("graph LR"));
}

#[test]
fn test_process_math_expressions_inline() {
    let markdown = "This is inline math: $x = y + z$";
    let events = markdown_to_events(markdown);
    let events = process_math_expressions(events);

    let mut html_events: Vec<&str> = Vec::new();
    for e in &events {
        if let MdEvent::Html { html } = e {
            html_events.push(html.as_str());
        }
    }

    assert!(
        html_events
            .iter()
            .any(|h| h.contains(r#"<span class="preprocessed-math-inline""#)),
        "Should contain inline-math span"
    );
    assert!(
        html_events
            .iter()
            .any(|h| h.contains("data-original-content")),
        "Should contain data attribute"
    );
    assert!(
        html_events.iter().any(|h| h.contains("x = y + z")),
        "Should contain the math content"
    );
}

#[test]
fn test_process_math_expressions_display() {
    let markdown = "Display math:\n\n$$\nx = \\frac{-b \\pm \\sqrt{b^2-4ac}}{2a}\n$$\n";
    let events = markdown_to_events(markdown);
    let events = process_math_expressions(events);

    let mut html_events: Vec<&str> = Vec::new();
    for e in &events {
        if let MdEvent::Html { html } = e {
            html_events.push(html.as_str());
        }
    }

    assert!(
        html_events
            .iter()
            .any(|h| h.contains(r#"<div class="preprocessed-math-display""#)),
        "Should contain display-math div"
    );
    assert!(
        html_events
            .iter()
            .any(|h| h.contains("data-original-content")),
        "Should contain data attribute"
    );
    assert!(
        html_events.iter().any(|h| h.contains("frac")),
        "Should contain the math content"
    );
}

#[test]
fn test_process_math_expressions_mixed() {
    let markdown = "Inline $a + b$ and display $$c = d$$";
    let events = markdown_to_events(markdown);
    let events = process_math_expressions(events);

    let mut html_events: Vec<&str> = Vec::new();
    for e in &events {
        if let MdEvent::Html { html } = e {
            html_events.push(html.as_str());
        }
    }

    assert!(
        html_events
            .iter()
            .any(|h| h.contains(r#"class="preprocessed-math-inline""#)),
        "Should contain inline math"
    );
    assert!(
        html_events
            .iter()
            .any(|h| h.contains(r#"class="preprocessed-math-display""#)),
        "Should contain display math"
    );
}

#[test]
fn test_render_to_html_with_math() {
    let markdown = "# Math Test\n\nInline math: $E = mc^2$\n\nDisplay math:\n$$\n\\int_0^\\infty e^{-x^2} dx = \\frac{\\sqrt{\\pi}}{2}\n$$\n";

    let result = render_to_html(markdown, &ImageStore::new());

    assert!(
        result.contains(r#"class="preprocessed-math-inline""#),
        "Should render inline math"
    );
    assert!(
        result.contains(r#"class="preprocessed-math-display""#),
        "Should render display math"
    );
    assert!(
        result.contains("data-original-content"),
        "Should include data attributes"
    );
}

#[test]
fn test_get_mime_type_lowercases_extension() {
    assert_eq!(get_mime_type("a.JPG"), "image/jpeg");
    assert_eq!(get_mime_type("b.PnG"), "image/png");
    assert_eq!(get_mime_type("c.SVG"), "image/svg+xml");
    assert_eq!(get_mime_type("d.WEBP"), "image/webp");
    assert_eq!(get_mime_type("e.Ico"), "image/x-icon");
}

#[test]
fn test_alert_rest_trims_unicode_whitespace() {
    let result = process_github_alerts("> [!NOTE]\u{A0}\n> body");
    assert!(result.contains("markdown-alert-note"));
    assert!(result.contains("body"));
    assert!(
        !result.contains('\u{A0}'),
        "a whitespace-only rest leaves no content line behind"
    );
}
