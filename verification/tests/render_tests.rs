use rendit::context::ContextDocument;
use rendit::detect::{DetectionMethod, TemplateChoice};
use rendit::engine::TemplateEngine;
use rendit::error::RenditError;
use rendit::paths::TemplateFile;
use rendit::paths::is_glob_safe;
use rendit::render::{
    effective_extension, in_memory_name, render, tera_glob, RenderedTemplate, TemplateExtension,
    TemplateSource,
};

fn ctx(json: &str) -> ContextDocument {
    ContextDocument::from_text(json, String::from("test.ctx.json")).expect("context must parse")
}

fn source(contents: &str) -> TemplateSource {
    TemplateSource { contents: String::from(contents), file: None }
}

const NOWHERE: &str = "/rendit-no-such-directory/anchor";

#[test]
fn hello_handlebars_end_to_end() {
    let tpl = source("<!--template handlebars-->Hello {{name}}");
    let c = ctx("{\"name\":\"World\"}");
    let out = render(&tpl, &c, DetectionMethod::Auto, TemplateExtension::Auto, NOWHERE)
        .expect("render must succeed");
    assert_eq!(out.0, "Hello World");
}

#[test]
fn hello_tera_end_to_end() {
    let tpl = source("<!--template tera-->Hello {{ name }}!");
    let c = ctx("{\"name\":\"World\"}");
    let out = render(&tpl, &c, DetectionMethod::Auto, TemplateExtension::Auto, NOWHERE)
        .expect("render must succeed");
    assert_eq!(out.0, "Hello World!");
}

#[test]
fn hello_liquid_end_to_end() {
    let tpl = source("<!--template liquid-->Hello {{ name }}!");
    let c = ctx("{\"name\":\"World\"}");
    let out = render(&tpl, &c, DetectionMethod::Auto, TemplateExtension::Auto, NOWHERE)
        .expect("render must succeed");
    assert_eq!(out.0, "Hello World!");
}

#[test]
fn no_engine_round_trip_byte_for_byte() {
    let body = "plain text, {{ braces }} and all\nlines kept";
    let tpl = source(body);
    let c = ctx("{\"name\":\"World\"}");
    let out = render(&tpl, &c, DetectionMethod::Auto, TemplateExtension::Auto, NOWHERE)
        .expect("pass-through must succeed");
    assert_eq!(out.0, body);
}

#[test]
fn forced_none_round_trip() {
    let body = "<!--template hbs-->kept as it stands";
    let tpl = source(body);
    let c = ctx("{}");
    let out = render(
        &tpl,
        &c,
        DetectionMethod::Force(TemplateEngine::NoEngine),
        TemplateExtension::Auto,
        NOWHERE,
    )
    .expect("pass-through must succeed");
    assert_eq!(out.0, body);
}

#[test]
fn rendering_twice_is_identical() {
    let tpl = source("<!--template handlebars-->Hi {{who}}");
    let c = ctx("{\"who\":\"you\"}");
    let first = render(&tpl, &c, DetectionMethod::Auto, TemplateExtension::Auto, NOWHERE)
        .expect("render must succeed");
    let second = render(&tpl, &c, DetectionMethod::Auto, TemplateExtension::Auto, NOWHERE)
        .expect("render must succeed");
    assert_eq!(first.0, second.0);
}

#[test]
fn unknown_marker_fails_naming_the_engine() {
    let tpl = source("<!--template mustache-->Hello {{name}}");
    let c = ctx("{\"name\":\"World\"}");
    match render(&tpl, &c, DetectionMethod::Auto, TemplateExtension::Auto, NOWHERE) {
        Err(RenditError::EngineUnrecognized(n)) => {
            assert_eq!(n, "mustache");
        },
        _ => panic!("expected the unrecognized-engine error"),
    }
}

#[test]
fn unknown_marker_message_names_the_engine() {
    let tpl = source("<!--template mustache-->x");
    let c = ctx("{}");
    let e = render(&tpl, &c, DetectionMethod::Auto, TemplateExtension::Auto, NOWHERE)
        .err()
        .expect("must fail");
    assert_eq!(e.message(), "Unknown template engine: `mustache`");
}

#[test]
fn tera_rejects_non_object_context() {
    let tpl = source("<!--template tera-->Hello");
    let c = ctx("[1, 2, 3]");
    match render(&tpl, &c, DetectionMethod::Auto, TemplateExtension::Auto, NOWHERE) {
        Err(RenditError::ContextRejected(_)) => {},
        _ => panic!("expected the rejected-context error"),
    }
}

#[test]
fn liquid_rejects_non_object_context() {
    let tpl = source("<!--template liquid-->Hello");
    let c = ctx("42");
    match render(&tpl, &c, DetectionMethod::Auto, TemplateExtension::Auto, NOWHERE) {
        Err(RenditError::ContextRejected(_)) => {},
        _ => panic!("expected the rejected-context error"),
    }
}

#[test]
fn liquid_parse_failure_is_a_parse_error() {
    let tpl = source("<!--template liquid-->{% endif %}");
    let c = ctx("{}");
    match render(&tpl, &c, DetectionMethod::Auto, TemplateExtension::Auto, NOWHERE) {
        Err(RenditError::TemplateParse(_)) => {},
        _ => panic!("expected the template-parse error"),
    }
}

#[test]
fn tera_parse_failure_is_a_parse_error() {
    let tpl = source("<!--template tera-->{{ unclosed");
    let c = ctx("{}");
    match render(&tpl, &c, DetectionMethod::Auto, TemplateExtension::Auto, NOWHERE) {
        Err(RenditError::TemplateParse(_)) => {},
        _ => panic!("expected the template-parse error"),
    }
}

#[test]
fn tera_missing_variable_is_a_render_error() {
    let tpl = source("<!--template tera-->{{ missing }}");
    let c = ctx("{}");
    match render(&tpl, &c, DetectionMethod::Auto, TemplateExtension::Auto, NOWHERE) {
        Err(RenditError::Render(_)) => {},
        _ => panic!("expected the render error"),
    }
}

#[test]
fn odd_glob_root_still_renders() {
    // a sibling directory that matches nothing leaves the engine empty but
    // working: the in-memory template still renders
    let file = TemplateFile::from_path("/tmp/a***b/t.html").expect("path splits");
    let tpl = TemplateSource { contents: String::from("Hello"), file: Some(file) };
    let c = ctx("{}");
    let out = render(
        &tpl,
        &c,
        DetectionMethod::Force(TemplateEngine::Tera),
        TemplateExtension::Auto,
        NOWHERE,
    )
    .expect("render must succeed");
    assert_eq!(out.0, "Hello");
}

#[test]
fn effective_extension_prefers_the_hint() {
    let file = TemplateFile::from_path("/tmp/page.txt").expect("path splits");
    let with_file = TemplateSource { contents: String::new(), file: Some(file) };
    let bare = TemplateSource { contents: String::new(), file: None };
    assert_eq!(effective_extension(TemplateExtension::Force("md"), &with_file), "md");
    assert_eq!(effective_extension(TemplateExtension::Auto, &with_file), "txt");
    assert_eq!(effective_extension(TemplateExtension::Auto, &bare), "html");
    assert_eq!(in_memory_name("txt"), "__in_memory__.txt");
}

#[test]
fn tera_glob_anchors_on_the_template_directory() {
    let file = TemplateFile::from_path("/tmp/dir/page.html").expect("path splits");
    let with_file = TemplateSource { contents: String::new(), file: Some(file) };
    let bare = TemplateSource { contents: String::new(), file: None };
    assert_eq!(tera_glob(&with_file, "/fb/anchor"), "/tmp/dir/**/*.*");
    assert_eq!(tera_glob(&bare, "/fb/anchor"), "/fb/**/*.*");
}

#[test]
fn glob_safety_refuses_openers_and_dangling_escapes() {
    assert!(is_glob_safe("/tmp/dir/**/*.*"));
    assert!(!is_glob_safe("/tmp/v{1/**/*.*"));
    assert!(!is_glob_safe("/tmp/v}1/**/*.*"));
    assert!(!is_glob_safe("/tmp/v[1/**/*.*"));
    assert!(!is_glob_safe("dir\\"));
    assert!(is_glob_safe("c:\\dir\\**\\*.*"));
}

#[test]
fn brace_in_template_directory_is_a_parser_build_error() {
    // the glob walker refuses patterns with alternation or class openers;
    // the pipeline turns such a path into the parser-build error instead of
    // handing it over
    let file = TemplateFile::from_path("/tmp/v{1/t.html").expect("path splits");
    let tpl = TemplateSource { contents: String::from("Hello"), file: Some(file) };
    let c = ctx("{}");
    match render(
        &tpl,
        &c,
        DetectionMethod::Force(TemplateEngine::Tera),
        TemplateExtension::Auto,
        NOWHERE,
    ) {
        Err(RenditError::ParserBuild(_)) => {},
        _ => panic!("expected the parser-build error"),
    }
}

#[test]
fn bracket_in_template_directory_is_a_parser_build_error() {
    let file = TemplateFile::from_path("/tmp/v[1/t.html").expect("path splits");
    let tpl = TemplateSource { contents: String::from("Hello"), file: Some(file) };
    let c = ctx("{}");
    match render(
        &tpl,
        &c,
        DetectionMethod::Force(TemplateEngine::Tera),
        TemplateExtension::Auto,
        NOWHERE,
    ) {
        Err(RenditError::ParserBuild(_)) => {},
        _ => panic!("expected the parser-build error"),
    }
}

#[test]
fn handlebars_failure_messages_are_identical_across_passes() {
    let tpl = source("<!--template hbs-->{{#missing_block}}x{{/missing_block}}");
    let c = ctx("{}");
    let m1 = render(&tpl, &c, DetectionMethod::Auto, TemplateExtension::Auto, NOWHERE)
        .err()
        .expect("must fail")
        .message();
    let m2 = render(&tpl, &c, DetectionMethod::Auto, TemplateExtension::Auto, NOWHERE)
        .err()
        .expect("must fail")
        .message();
    assert_eq!(m1, m2);
}

#[test]
fn handlebars_missing_block_helper_is_a_render_error() {
    let tpl = source("<!--template hbs-->{{#missing_block}}x{{/missing_block}}");
    let c = ctx("{}");
    match render(&tpl, &c, DetectionMethod::Auto, TemplateExtension::Auto, NOWHERE) {
        Err(RenditError::Render(_)) => {},
        _ => panic!("expected the render error"),
    }
}

#[test]
fn liquid_unknown_variable_is_a_render_error() {
    let tpl = source("<!--template liquid-->{{ missing }}");
    let c = ctx("{}");
    match render(&tpl, &c, DetectionMethod::Auto, TemplateExtension::Auto, NOWHERE) {
        Err(RenditError::Render(_)) => {},
        _ => panic!("expected the render error"),
    }
}

#[test]
fn handlebars_autoescapes_html_input() {
    let tpl = source("<!--template hbs-->{{x}}");
    let c = ctx("{\"x\":\"<b>\"}");
    let out = render(&tpl, &c, DetectionMethod::Auto, TemplateExtension::Auto, NOWHERE)
        .expect("render must succeed");
    assert_eq!(out.0, "&lt;b&gt;");
}

#[test]
fn rendered_template_is_public_text() {
    let r = RenderedTemplate(String::from("abc"));
    assert_eq!(r.0, "abc");
}

#[test]
fn classification_of_source_with_extension() {
    // a template loaded from a `.tera` file is classified by its extension
    let file = TemplateFile::from_path("/tmp/page.tera").expect("path splits");
    assert_eq!(file.parts.extension.as_deref(), Some("tera"));
    let tpl = TemplateSource {
        contents: String::from("<!--template hbs-->{{ x }}"),
        file: Some(file),
    };
    match rendit::detect::detect_template(
        tpl.contents.as_str(),
        tpl.file.as_ref().and_then(|f| f.parts.extension.as_deref()),
    ) {
        TemplateChoice::Tera(c) => assert_eq!(c, "<!--template hbs-->{{ x }}"),
        _ => panic!("expected the Tera classification"),
    }
}
