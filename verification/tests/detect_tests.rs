use rendit::detect::{detect_content, detect_template, choose_template, DetectionMethod, TemplateChoice};
use rendit::engine::{engine_from_str, engine_name, supported_engines, TemplateEngine};
use rendit::error::RenditError;

#[test]
fn extension_beats_marker() {
    // extension precedence: a recognized extension wins even when the
    // content names another engine, and the content stays untouched
    let t = detect_template("<!--template liquid-->x", Some("tera"));
    match t {
        TemplateChoice::Tera(c) => assert_eq!(c, "<!--template liquid-->x"),
        _ => panic!("expected the Tera classification"),
    }
    let t = detect_template("<!--template tera-->x", Some("hbs"));
    match t {
        TemplateChoice::Handlebars(c) => assert_eq!(c, "<!--template tera-->x"),
        _ => panic!("expected the Handlebars classification"),
    }
    let t = detect_template("plain", Some("liq"));
    match t {
        TemplateChoice::Liquid(c) => assert_eq!(c, "plain"),
        _ => panic!("expected the Liquid classification"),
    }
}

#[test]
fn unknown_extension_falls_through_to_marker() {
    let t = detect_template("<!--template hbs-->Hello", Some("html"));
    match t {
        TemplateChoice::Handlebars(c) => assert_eq!(c, "Hello"),
        _ => panic!("expected the Handlebars classification"),
    }
}

#[test]
fn leading_tera_marker_detected_and_stripped() {
    let t = detect_template("<!--template tera-->Hello {{ name }}", None);
    match t {
        TemplateChoice::Tera(c) => assert_eq!(c, "Hello {{ name }}"),
        _ => panic!("expected the Tera classification"),
    }
}

#[test]
fn marker_is_case_insensitive() {
    let t = detect_content("<!--TEMPLATE Tera-->body");
    match t {
        TemplateChoice::Tera(c) => assert_eq!(c, "body"),
        _ => panic!("expected the Tera classification"),
    }
}

#[test]
fn marker_allows_extra_leading_spaces_and_one_trailing_space() {
    match detect_content("<!--template   hbs-->x") {
        TemplateChoice::Handlebars(c) => assert_eq!(c, "x"),
        _ => panic!("expected the Handlebars classification"),
    }
    match detect_content("<!--template hbs -->x") {
        TemplateChoice::Handlebars(c) => assert_eq!(c, "x"),
        _ => panic!("expected the Handlebars classification"),
    }
}

#[test]
fn marker_with_two_trailing_spaces_is_no_marker() {
    match detect_content("<!--template tera  -->x") {
        TemplateChoice::NoEngine(c) => assert_eq!(c, "<!--template tera  -->x"),
        _ => panic!("expected the pass-through classification"),
    }
}

#[test]
fn marker_anywhere_in_content_counts() {
    match detect_content("abc <!--template hbs--> def") {
        TemplateChoice::Handlebars(c) => assert_eq!(c, "abc  def"),
        _ => panic!("expected the Handlebars classification"),
    }
}

#[test]
fn only_first_marker_counts() {
    match detect_content("<!--template liq--><!--template tera-->x") {
        TemplateChoice::Liquid(c) => assert_eq!(c, "<!--template tera-->x"),
        _ => panic!("expected the Liquid classification"),
    }
}

#[test]
fn unknown_marker_name_is_kept_lowercased() {
    match detect_content("<!--template MUSTACHE-->body") {
        TemplateChoice::Unknown(n, c) => {
            assert_eq!(n, "mustache");
            assert_eq!(c, "body");
        },
        _ => panic!("expected the Unknown classification"),
    }
}

#[test]
fn marker_after_unicode_text_counts() {
    match detect_content("héllo wörld <!--template tera-->bödy") {
        TemplateChoice::Tera(c) => assert_eq!(c, "héllo wörld bödy"),
        _ => panic!("expected the Tera classification"),
    }
}

#[test]
fn unicode_whitespace_counts_inside_a_marker() {
    // a no-break space before the name, an em space after it
    match detect_content("<!--template\u{a0}tera-->x") {
        TemplateChoice::Tera(c) => assert_eq!(c, "x"),
        _ => panic!("expected the Tera classification"),
    }
    match detect_content("<!--template hbs\u{2003}-->x") {
        TemplateChoice::NoEngine(_) => panic!("one em space after the name must still match"),
        TemplateChoice::Handlebars(c) => assert_eq!(c, "x"),
        _ => panic!("expected the Handlebars classification"),
    }
}

#[test]
fn unicode_whitespace_is_trimmed_from_the_remainder() {
    match detect_content("<!--template hbs-->\u{2003}body\u{a0}") {
        TemplateChoice::Handlebars(c) => assert_eq!(c, "body"),
        _ => panic!("expected the Handlebars classification"),
    }
}

#[test]
fn marker_at_the_very_end_counts() {
    match detect_content("body <!--template liq-->") {
        TemplateChoice::Liquid(c) => assert_eq!(c, "body"),
        _ => panic!("expected the Liquid classification"),
    }
}

#[test]
fn marker_names_may_hold_digits_and_underscores() {
    match detect_content("<!--template engine_2-->x") {
        TemplateChoice::Unknown(n, c) => {
            assert_eq!(n, "engine_2");
            assert_eq!(c, "x");
        },
        _ => panic!("expected the Unknown classification"),
    }
}

#[test]
fn unfinished_marker_is_no_marker() {
    match detect_content("<!--template tera") {
        TemplateChoice::NoEngine(c) => assert_eq!(c, "<!--template tera"),
        _ => panic!("expected the pass-through classification"),
    }
    match detect_content("<!--template -->x") {
        TemplateChoice::NoEngine(c) => assert_eq!(c, "<!--template -->x"),
        _ => panic!("expected the pass-through classification"),
    }
}

#[test]
fn empty_content_passes_through() {
    match detect_content("") {
        TemplateChoice::NoEngine(c) => assert_eq!(c, ""),
        _ => panic!("expected the pass-through classification"),
    }
}

#[test]
fn no_marker_means_pass_through() {
    match detect_content("just text") {
        TemplateChoice::NoEngine(c) => assert_eq!(c, "just text"),
        _ => panic!("expected the pass-through classification"),
    }
}

#[test]
fn forced_engine_bypasses_inspection() {
    let t = choose_template(
        "<!--template hbs-->x",
        Some("tera"),
        DetectionMethod::Force(TemplateEngine::Liquid),
    );
    match t {
        TemplateChoice::Liquid(c) => assert_eq!(c, "<!--template hbs-->x"),
        _ => panic!("expected the Liquid classification"),
    }
}

#[test]
fn get_engine_names() {
    assert_eq!(TemplateChoice::Tera(String::new()).get_engine(), "tera");
    assert_eq!(TemplateChoice::Handlebars(String::new()).get_engine(), "handlebars");
    assert_eq!(TemplateChoice::Liquid(String::new()).get_engine(), "liquid");
    assert_eq!(
        TemplateChoice::Unknown(String::from("x"), String::new()).get_engine(),
        "unknown"
    );
    assert_eq!(TemplateChoice::NoEngine(String::new()).get_engine(), "no_engine");
}

#[test]
fn engine_names_parse_case_insensitively() {
    assert!(matches!(engine_from_str("TERA"), Ok(TemplateEngine::Tera)));
    assert!(matches!(engine_from_str("liquid"), Ok(TemplateEngine::Liquid)));
    assert!(matches!(engine_from_str("liq"), Ok(TemplateEngine::Liquid)));
    assert!(matches!(engine_from_str("Handlebars"), Ok(TemplateEngine::Handlebars)));
    assert!(matches!(engine_from_str("hbs"), Ok(TemplateEngine::Handlebars)));
    assert!(matches!(engine_from_str("None"), Ok(TemplateEngine::NoEngine)));
    match engine_from_str("mustache") {
        Err(RenditError::EngineUnrecognized(n)) => assert_eq!(n, "mustache"),
        _ => panic!("expected the unrecognized-engine error"),
    }
}

#[test]
fn engine_list_in_order() {
    let v = supported_engines();
    assert_eq!(v.len(), 4);
    assert_eq!(engine_name(&v[0]), "tera");
    assert_eq!(engine_name(&v[1]), "liquid");
    assert_eq!(engine_name(&v[2]), "handlebars");
    assert_eq!(engine_name(&v[3]), "none");
}
