use scrapedown::{
    empty_envelope, error_response, parse_envelope, raw_output_path, readable_html_path,
    readable_md_path, repair_image, repair_images, safe_file_stem, sanitize, strip_comments,
    success_response, to_markdown, ErrorKind, ExtractionResult, ImgElement, Node, NodeKind,
    ScrapeError, ScrapeRequest,
};

fn img(
    src: Option<&str>,
    data_src: Option<&str>,
    srcset: Option<&str>,
) -> ImgElement {
    ImgElement {
        src: src.map(String::from),
        data_src: data_src.map(String::from),
        data_lazy_src: None,
        data_original: None,
        data_lazy: None,
        srcset: srcset.map(String::from),
        data_srcset: None,
    }
}

fn element(hidden: bool, children: Vec<Node>) -> Node {
    Node {
        kind: NodeKind::Element,
        display_none: hidden,
        visibility_hidden: false,
        opacity_zero: false,
        width: 100,
        height: 100,
        is_image: false,
        children,
    }
}

fn image_node() -> Node {
    Node {
        kind: NodeKind::Element,
        display_none: false,
        visibility_hidden: false,
        opacity_zero: false,
        width: 1,
        height: 1,
        is_image: true,
        children: Vec::new(),
    }
}

#[test]
fn repair_promotes_deferred_source() {
    let repaired = img(
        Some("spacer.gif"),
        Some("https://cdn.example.com/real.jpg"),
        Some("a 1x, b 2x"),
    );
    let repaired = repair_image(repaired);
    assert_eq!(repaired.src.as_deref(), Some("https://cdn.example.com/real.jpg"));
    assert!(repaired.srcset.is_none());
    assert!(repaired.data_srcset.is_none());
}

#[test]
fn repair_skips_data_uris_and_short_sources() {
    let r = repair_image(img(Some("orig-picture.png"), Some("data:image/png;base64,AAAA"), None));
    assert_eq!(r.src.as_deref(), Some("orig-picture.png"));
    let r = repair_image(img(Some("orig-picture.png"), Some("tiny.gif"), None));
    assert_eq!(r.src.as_deref(), Some("orig-picture.png"));
}

#[test]
fn repair_is_idempotent_on_src() {
    let cases = vec![
        img(Some("spacer.gif"), Some("https://cdn.example.com/real.jpg"), Some("a 1x")),
        img(Some("orig-picture.png"), Some("data:image/png;base64,AA"), None),
        img(Some("https://cdn.example.com/only-src.jpg"), None, None),
        img(None, None, Some("a 1x")),
        img(Some(""), Some("short"), None),
    ];
    for case in cases {
        let copy = ImgElement {
            src: case.src.clone(),
            data_src: case.data_src.clone(),
            data_lazy_src: None,
            data_original: None,
            data_lazy: None,
            srcset: case.srcset.clone(),
            data_srcset: None,
        };
        let once = repair_image(copy);
        let once_src = once.src.clone();
        let once_srcset = once.srcset.clone();
        let twice = repair_image(once);
        assert_eq!(twice.src, once_src);
        assert_eq!(twice.srcset, once_srcset);
    }
}

#[test]
fn repair_images_repairs_each_element() {
    let all = repair_images(vec![
        img(Some("spacer.gif"), Some("https://cdn.example.com/one.jpg"), None),
        img(Some("https://cdn.example.com/keep-me.jpg"), None, Some("x 1x")),
    ]);
    assert_eq!(all.len(), 2);
    assert_eq!(all[0].src.as_deref(), Some("https://cdn.example.com/one.jpg"));
    assert_eq!(all[1].src.as_deref(), Some("https://cdn.example.com/keep-me.jpg"));
    assert!(all[1].srcset.is_none());
}

#[test]
fn hidden_element_with_image_child_survives() {
    // Hidden by every criterion except that it directly contains an image.
    let carrier = Node {
        kind: NodeKind::Element,
        display_none: true,
        visibility_hidden: true,
        opacity_zero: true,
        width: 0,
        height: 0,
        is_image: false,
        children: vec![image_node()],
    };
    let kept = sanitize(&carrier).expect("an image carrier is never removed");
    assert_eq!(kept.children.len(), 1);
    assert!(kept.children[0].is_image);
}

#[test]
fn hidden_element_without_image_is_removed() {
    let hidden = element(true, vec![element(false, Vec::new())]);
    assert!(sanitize(&hidden).is_none());

    let page = element(false, vec![element(true, Vec::new()), element(false, Vec::new())]);
    let clean = sanitize(&page).expect("the visible root is kept");
    assert_eq!(clean.children.len(), 1);
}

#[test]
fn tiny_bounding_box_counts_as_hidden() {
    let tracker = Node {
        kind: NodeKind::Element,
        display_none: false,
        visibility_hidden: false,
        opacity_zero: false,
        width: 1,
        height: 1,
        is_image: false,
        children: Vec::new(),
    };
    assert!(sanitize(&tracker).is_none());
}

#[test]
fn comments_are_stripped_recursively() {
    let comment = Node {
        kind: NodeKind::Comment,
        display_none: false,
        visibility_hidden: false,
        opacity_zero: false,
        width: 0,
        height: 0,
        is_image: false,
        children: Vec::new(),
    };
    let body = element(false, vec![comment, element(false, Vec::new())]);
    let clean = strip_comments(&body).expect("the body is no comment");
    assert_eq!(clean.children.len(), 1);
    assert_eq!(clean.children[0].kind, NodeKind::Element);
}

#[test]
fn envelope_decodes_all_fields() {
    let env = parse_envelope(Some(String::from(
        "{\"title\":\"T\",\"content\":\"<p>c</p>\",\"textContent\":\"c\",\"excerpt\":\"e\",\"error\":\"why\"}",
    )));
    assert_eq!(env.title, "T");
    assert_eq!(env.content, "<p>c</p>");
    assert_eq!(env.text_content, "c");
    assert_eq!(env.excerpt, "e");
    assert_eq!(env.error.as_deref(), Some("why"));
}

#[test]
fn envelope_defaults_missing_fields() {
    let env = parse_envelope(Some(String::from("{\"title\":\"T\"}")));
    assert_eq!(env.title, "T");
    assert_eq!(env.content, "");
    assert_eq!(env.text_content, "");
    assert_eq!(env.excerpt, "");
    assert!(env.error.is_none());
}

#[test]
fn envelope_tolerates_missing_and_malformed_text() {
    let env = parse_envelope(None);
    assert_eq!(env.title, "");
    assert_eq!(env.content, "");
    let env = parse_envelope(Some(String::from("{broken")));
    assert_eq!(env.title, "");
    assert_eq!(env.content, "");
    let env = parse_envelope(Some(String::from("[1,2,3]")));
    assert_eq!(env.content, "");
    let empty = empty_envelope();
    assert_eq!(empty.title, "");
    assert!(empty.error.is_none());
}

#[test]
fn envelope_ignores_non_string_fields() {
    let env = parse_envelope(Some(String::from("{\"title\":7,\"content\":\"<p>ok</p>\"}")));
    assert_eq!(env.title, "");
    assert_eq!(env.content, "<p>ok</p>");
}

#[test]
fn markdown_conversion_keeps_header_text() {
    // The converter's round trip: markdown made from a known fragment
    // retains the fragment's header and body text, and is not the
    // input handed back unchanged.
    let markdown = to_markdown("<html><body><h1>Example</h1><p>Hi</p></body></html>");
    assert!(markdown.contains("Example"));
    assert!(markdown.contains("Hi"));
    assert!(!markdown.contains("<h1>"));
    assert_eq!(to_markdown(""), "");
}

#[test]
fn safe_stem_keeps_letters_digits_spaces_dashes() {
    assert_eq!(safe_file_stem("My Title: Part 1!"), "My_Title_Part_1");
    assert_eq!(safe_file_stem("  padded  "), "padded");
    assert_eq!(safe_file_stem("dash-ok"), "dash-ok");
    assert_eq!(safe_file_stem("<>#"), "");
}

#[test]
fn output_paths_follow_the_title() {
    assert_eq!(raw_output_path("Example"), "outputs/Example.md");
    assert_eq!(readable_md_path("An Article"), "outputs/An_Article_readable.md");
    assert_eq!(readable_html_path("An Article"), "outputs/An_Article_readable.html");
}

#[test]
fn responses_carry_the_request_and_result() {
    let response = success_response(
        ScrapeRequest { url: String::from("https://example.com/") },
        ExtractionResult {
            title: String::from("T"),
            markdown: String::from("# T"),
            html: None,
        },
    );
    assert_eq!(response.url, "https://example.com/");
    assert_eq!(response.title, "T");
    assert_eq!(response.markdown, "# T");

    let error = ScrapeError { kind: ErrorKind::Timeout, detail: String::from("navigation") };
    let body = error_response(&error);
    assert_eq!(body.error, "timed out: navigation");
}

#[test]
fn session_gate_bounds_concurrent_sessions() {
    let mut gate = scrapedown::SessionGate::new(2);
    assert!(gate.try_acquire());
    assert!(gate.try_acquire());
    assert!(!gate.try_acquire());
    assert_eq!(gate.sessions_in_use(), 2);
    gate.release();
    assert_eq!(gate.sessions_in_use(), 1);
    assert!(gate.try_acquire());
    assert!(!gate.try_acquire());
}
