use arto::events::MdEvent;
use arto::links::ImageStore;
use arto::menu::MenuId;
use arto::paths::{file_extension, is_markdown_file, parent_of};
use arto::render::{markdown_to_events, render_to_html};
use arto::rewrite::{collect_image_sources, post_process_html_tags};
use arto::theme::{resolve_theme, SystemAppearance, Theme, ThemePreference};
use arto::transforms::{fence_html, process_code_blocks, process_math_expressions};
use arto::watcher::WatcherError;

#[test]
fn test_fenced_block_exact_wrapping() {
    let markdown = "```mermaid\ngraph TD\nA-->B\n```\n";
    let events = markdown_to_events(markdown);
    let events = process_code_blocks(events, "mermaid");

    assert_eq!(events.len(), 1, "the whole block becomes one event");
    match &events[0] {
        MdEvent::Html { html } => {
            assert_eq!(
                html,
                "<pre class=\"preprocessed-mermaid\" data-original-content=\"graph TD\nA--&gt;B\n\">graph TD\nA-->B\n</pre>"
            );
        }
        _ => panic!("expected a raw HTML event"),
    }
}

#[test]
fn test_fence_html_escapes_attribute() {
    let body: Vec<char> = "a<b & c>d".chars().collect();
    let out: String = fence_html("math", &body).into_iter().collect();
    assert_eq!(
        out,
        "<pre class=\"preprocessed-math\" data-original-content=\"a&lt;b &amp; c&gt;d\">a<b & c>d</pre>"
    );
}

#[test]
fn test_math_exact_inline_and_display() {
    let events = markdown_to_events("$x = y$");
    let events = process_math_expressions(events);
    let mut found_inline = false;
    for e in &events {
        if let MdEvent::Html { html } = e {
            if html == "<span class=\"preprocessed-math-inline\" data-original-content=\"x = y\">x = y</span>" {
                found_inline = true;
            }
        }
    }
    assert!(found_inline, "inline math becomes the exact span");

    let events = markdown_to_events("$$a=b$$");
    let events = process_math_expressions(events);
    let mut found_display = false;
    for e in &events {
        if let MdEvent::Html { html } = e {
            if html == "<div class=\"preprocessed-math-display\" data-original-content=\"a=b\">a=b</div>" {
                found_display = true;
            }
        }
    }
    assert!(found_display, "display math becomes the exact div");
}

#[test]
fn test_image_embedding_happy_path() {
    let mut store = ImageStore::new();
    store.add(
        "img.png".to_string(),
        "/doc/img.png".to_string(),
        vec![0x89, 0x50, 0x4E, 0x47],
    );
    let result = render_to_html("![t](img.png)", &store);

    assert!(
        result.contains("data:image/png;base64,"),
        "src becomes a data URI"
    );
    assert!(
        result.contains("iVBORw=="),
        "the data URI holds the real base64 encoding"
    );
    assert!(
        !result.contains(r#"src="img.png""#),
        "the original path is gone"
    );
}

#[test]
fn test_image_embedding_fail_open() {
    let result = render_to_html("![t](img.png)", &ImageStore::new());
    assert!(
        result.contains(r#"src="img.png""#),
        "an unresolvable image keeps its original src"
    );
}

#[test]
fn test_image_mime_follows_resolved_path() {
    let mut store = ImageStore::new();
    store.add(
        "photo".to_string(),
        "/cache/photo.webp".to_string(),
        vec![1, 2, 3],
    );
    let html = r#"<img src="photo">"#;
    let result = post_process_html_tags(html, &store);
    assert!(result.contains("data:image/webp;base64,"));
}

#[test]
fn test_anchor_without_extension_unchanged() {
    let html = r##"<a href="#anchor">jump</a>"##;
    let result = post_process_html_tags(html, &ImageStore::new());
    assert_eq!(result, html);
}

#[test]
fn test_anchor_href_escaped_for_script() {
    let html = r#"<a href="a'b.md">x</a>"#;
    let result = post_process_html_tags(html, &ImageStore::new());
    assert!(result.contains(r"a\'b.md"), "the quote is escaped in the script");
    assert!(result.contains("onmousedown"));
}

#[test]
fn test_multiline_alert_keeps_line_order() {
    let result = render_to_html("> [!NOTE]\n> line1\n> line2\n> line3", &ImageStore::new());
    let open_count = result.matches("<div class=\"markdown-alert").count();
    assert_eq!(open_count, 1, "one alert div for the whole run of lines");
    let p1 = result.find("line1").unwrap();
    let p2 = result.find("line2").unwrap();
    let p3 = result.find("line3").unwrap();
    assert!(p1 < p2 && p2 < p3, "body lines keep their order");
}

#[test]
fn test_render_order_preserved() {
    let mut store = ImageStore::new();
    store.add(
        "img.png".to_string(),
        "/doc/img.png".to_string(),
        vec![0x89, 0x50, 0x4E, 0x47],
    );
    let markdown = "# Head\n\n> [!NOTE]\n> alert body\n\n![t](img.png)\n\n[doc](other.md)\n\n```mermaid\ngraph TD\nA-->B\n```\n";
    let result = render_to_html(markdown, &store);

    let p_head = result.find("<h1>").unwrap();
    let p_alert = result.find("markdown-alert-note").unwrap();
    let p_img = result.find("data:image/png").unwrap();
    let p_link = result.find("md-link").unwrap();
    let p_mermaid = result.find("preprocessed-mermaid").unwrap();
    assert!(p_head < p_alert);
    assert!(p_alert < p_img);
    assert!(p_img < p_link);
    assert!(p_link < p_mermaid);
}

#[test]
fn test_collect_image_sources_in_order() {
    let html = r#"<p><img src="a.png"></p><img src="https://x/b.png">"#;
    let srcs = collect_image_sources(html);
    assert_eq!(srcs, vec!["a.png".to_string(), "https://x/b.png".to_string()]);
}

#[test]
fn test_menu_id_round_trips() {
    let ids = vec![
        MenuId::NewWindow,
        MenuId::NewTab,
        MenuId::Open,
        MenuId::OpenDirectory,
        MenuId::CloseTab,
        MenuId::CloseAllTabs,
        MenuId::CloseWindow,
        MenuId::CloseAllChildWindows,
        MenuId::CloseAllWindows,
        MenuId::ToggleSidebar,
        MenuId::ActualSize,
        MenuId::ZoomIn,
        MenuId::ZoomOut,
        MenuId::GoBack,
        MenuId::GoForward,
        MenuId::GoToHomepage,
    ];
    for id in ids {
        assert_eq!(MenuId::from_str(id.as_str()), Some(id));
    }
    assert_eq!(MenuId::from_str("file.open"), Some(MenuId::Open));
    assert_eq!(MenuId::from_str("no.such_entry"), None);
}

#[test]
fn test_theme_resolution() {
    assert_eq!(
        resolve_theme(ThemePreference::Auto, SystemAppearance::Dark),
        Theme::Dark
    );
    assert_eq!(
        resolve_theme(ThemePreference::Auto, SystemAppearance::Light),
        Theme::Light
    );
    assert_eq!(
        resolve_theme(ThemePreference::Auto, SystemAppearance::Unknown),
        Theme::Light
    );
    assert_eq!(
        resolve_theme(ThemePreference::Light, SystemAppearance::Dark),
        Theme::Light
    );
    assert_eq!(
        resolve_theme(ThemePreference::Dark, SystemAppearance::Light),
        Theme::Dark
    );
    assert_eq!(ThemePreference::from_name("light"), ThemePreference::Light);
    assert_eq!(ThemePreference::from_name("dark"), ThemePreference::Dark);
    assert_eq!(ThemePreference::from_name("other"), ThemePreference::Auto);
}

#[test]
fn test_watcher_error_message() {
    assert_eq!(
        WatcherError::CommandFailed.message(),
        "Failed to send watcher command"
    );
}

#[test]
fn test_path_helpers() {
    assert!(is_markdown_file("notes.md"));
    assert!(is_markdown_file("dir/notes.markdown"));
    assert!(!is_markdown_file("notes.txt"));
    assert!(!is_markdown_file("noext"));
    assert!(!is_markdown_file(".hidden"));

    assert_eq!(file_extension("a/b.tar.gz"), Some("gz".to_string()));
    assert_eq!(file_extension("#anchor"), None);
    assert_eq!(file_extension(".."), None);

    assert_eq!(parent_of("/a/b.md"), Some("/a".to_string()));
    assert_eq!(parent_of("b.md"), Some("".to_string()));
    assert_eq!(parent_of("/"), None);
    assert_eq!(parent_of(""), None);
}

#[test]
fn test_generate_diagram_id() {
    // The SHA-256 digest of the empty text is well known.
    assert_eq!(
        arto::diagram::generate_diagram_id(""),
        "e3b0c44298fc1c14"
    );
    let id = arto::diagram::generate_diagram_id("graph TD\nA-->B");
    assert_eq!(id.len(), 16);
    assert_ne!(id, arto::diagram::generate_diagram_id("graph TD\nA-->C"));
}
