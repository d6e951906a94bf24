use rendit::context::{choose_context_path, context_candidates, ContextDocument};
use rendit::error::RenditError;

#[test]
fn candidates_beside_the_template() {
    let (sibling, fallback) = context_candidates("dir/a.html");
    assert_eq!(sibling, "dir/a.ctx.json");
    assert_eq!(fallback, "dir/default.ctx.json");
}

#[test]
fn cascade_prefers_named_sibling() {
    let p = choose_context_path(None, Some("dir/a.html"), true, true);
    assert_eq!(p, "dir/a.ctx.json");
}

#[test]
fn cascade_falls_back_to_sibling_default() {
    let p = choose_context_path(None, Some("dir/a.html"), false, true);
    assert_eq!(p, "dir/default.ctx.json");
}

#[test]
fn cascade_falls_back_to_working_directory_default() {
    let p = choose_context_path(None, Some("dir/a.html"), false, false);
    assert_eq!(p, "default.ctx.json");
}

#[test]
fn explicit_context_wins_over_everything() {
    let p = choose_context_path(Some("given.json"), Some("dir/a.html"), true, true);
    assert_eq!(p, "given.json");
}

#[test]
fn stdin_mode_uses_working_directory_default() {
    let p = choose_context_path(None, None, false, false);
    assert_eq!(p, "default.ctx.json");
}

#[test]
fn well_formed_json_parses() {
    let d = ContextDocument::from_text("{\"a\": 1}", String::from("p.json"))
        .expect("well-formed JSON must parse");
    assert_eq!(d.source_path(), "p.json");
}

#[test]
fn malformed_json_is_a_parse_error_blaming_the_path() {
    match ContextDocument::from_text("{not json", String::from("bad.json")) {
        Err(RenditError::ContextParse(p, _)) => assert_eq!(p, "bad.json"),
        _ => panic!("expected the context-parse error"),
    }
}
