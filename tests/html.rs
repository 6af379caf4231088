use thaw_cli::html::{
    apply_html_transform, inject_to_body, inject_to_head, BuildHtml, HtmlTagDescriptor,
    HtmlTagInjectTo, IndexHtmlTransformResult,
};

fn tag(name: &str, attrs: &[(&str, &str)], children: Option<&str>, to: HtmlTagInjectTo) -> HtmlTagDescriptor {
    HtmlTagDescriptor {
        tag: name.to_string(),
        attrs: attrs.iter().map(|(k, v)| (k.to_string(), v.to_string())).collect(),
        children: children.map(|c| c.to_string()),
        inject_to: to,
    }
}

#[test]
fn test_inject_to_head() {
    let html = r#"<html><head lang></head><body></body></html>"#.to_string();
    let html = inject_to_head(
        html,
        vec![tag("script", &[("type", "module"), ("src", "/test")], None, HtmlTagInjectTo::HeadPrepend)],
        true,
    );
    assert_eq!(
        html,
        "<html><head lang>\n  <script type=\"module\" src=\"/test\"></script>\n</head><body></body></html>".to_string()
    );
}

#[test]
fn no_tags_leave_the_document_unchanged() {
    let html = "<html>\n  <head></head>\n  <body></body>\n</html>".to_string();
    assert_eq!(apply_html_transform(html.clone(), vec![]), html);
    assert_eq!(apply_html_transform(String::new(), vec![]), String::new());
}

#[test]
fn applying_twice_injects_twice() {
    let html = "<html><head></head><body></body></html>".to_string();
    let tags = || vec![tag("script", &[("src", "/a.js")], None, HtmlTagInjectTo::Body)];
    let once = apply_html_transform(html.clone(), tags());
    let twice = apply_html_transform(once.clone(), tags());
    assert_ne!(once, html);
    assert_ne!(twice, once);
    assert_eq!(once.matches("<script src=\"/a.js\"></script>").count(), 1);
    assert_eq!(twice.matches("<script src=\"/a.js\"></script>").count(), 2);
}

#[test]
fn head_tags_go_before_head_close_with_deeper_indent() {
    let html = "<html>\n  <head>\n  </head>\n</html>".to_string();
    let out = inject_to_head(html, vec![tag("link", &[("rel", "x")], None, HtmlTagInjectTo::Head)], false);
    assert_eq!(out, "<html>\n  <head>\n    <link rel=\"x\"/>\n  </head>\n</html>");
}

#[test]
fn head_tags_without_head_go_before_body() {
    let html = "<html><body class=\"a\"></body></html>".to_string();
    let out = inject_to_head(html, vec![tag("meta", &[("charset", "utf-8")], None, HtmlTagInjectTo::Head)], false);
    assert_eq!(out, "<html>  <meta charset=\"utf-8\"/>\n\n<body class=\"a\"></body></html>");
}

#[test]
fn head_tags_without_anchors_fall_back_after_html_or_doctype_or_start() {
    let t = || vec![tag("base", &[("href", "/")], None, HtmlTagInjectTo::Head)];
    assert_eq!(inject_to_head("<html lang=\"en\"></html>".to_string(), t(), false), "<html lang=\"en\">\n<base href=\"/\"/>\n</html>");
    assert_eq!(inject_to_head("<!doctype html><p>".to_string(), t(), true), "<!doctype html>\n<base href=\"/\"/>\n<p>");
    assert_eq!(inject_to_head("<p>".to_string(), t(), true), "<base href=\"/\"/>\n<p>");
}

#[test]
fn tab_indented_head_gets_a_tab_more() {
    let html = "<html>\n\t<head>\n\t</head>\n</html>".to_string();
    let out = inject_to_head(html, vec![tag("title", &[], Some("T"), HtmlTagInjectTo::HeadPrepend)], true);
    assert_eq!(out, "<html>\n\t<head>\n\t\t<title>T</title>\n\n\t</head>\n</html>");
}

#[test]
fn body_tags_go_before_body_close_else_html_close_else_end() {
    let t = || vec![tag("script", &[], Some("x()"), HtmlTagInjectTo::Body)];
    assert_eq!(inject_to_body("<body>\n</body>".to_string(), t()), "<body>\n  <script>x()</script>\n</body>");
    assert_eq!(inject_to_body("<html></html>".to_string(), t()), "<html><script>x()</script>\n\n</html>");
    assert_eq!(inject_to_body("<p>".to_string(), t()), "<p>\n<script>x()</script>\n");
}

#[test]
fn groups_are_applied_head_prepend_head_then_body() {
    let html = "<head></head><body></body>".to_string();
    let tags = vec![
        tag("script", &[("src", "/b")], None, HtmlTagInjectTo::Body),
        tag("link", &[("href", "/h")], None, HtmlTagInjectTo::Head),
        tag("meta", &[("name", "p")], None, HtmlTagInjectTo::HeadPrepend),
    ];
    let out = apply_html_transform(html, tags);
    assert_eq!(
        out,
        "<head>\n  <meta name=\"p\"/>\n  <link href=\"/h\"/>\n</head><body>  <script src=\"/b\"></script>\n</body>"
    );
}

#[test]
fn csr_index_gets_the_loader_script() {
    let hooks = BuildHtml::main_wasm_hook("pkg", "assets");
    assert_eq!(hooks.len(), 3);
    let out = BuildHtml::transform(hooks, "<body></body>".to_string());
    assert!(out.contains("<script type=\"module\">"));
    assert!(out.contains("import init from '/assets/pkg.js';await init({ module_or_path: '/assets/pkg_bg.wasm' })"));
    assert!(out.contains("<link rel=\"modulepreload\" href=\"/assets/pkg.js\"/>"));
    assert!(out.contains("<link rel=\"preload\" as=\"fetch\" type=\"application/wasm\" href=\"/assets/pkg_bg.wasm\"/>"));
}

#[test]
fn dev_hook_prepends_the_client_script() {
    let hook: IndexHtmlTransformResult = BuildHtml::dev_html_hook("/__thaw_cli__/client");
    let out = BuildHtml::transform(vec![hook], "<html><head></head></html>".to_string());
    assert_eq!(out, "<html><head>\n  <script type=\"module\" src=\"/__thaw_cli__/client.js\"></script>\n</head></html>");
}
