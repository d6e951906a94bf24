//! The trusted boundary: declarations of the outside engines' types, and
//! thin wrappers around the calls the render pipeline makes. Verus believes
//! what is stated here; each wrapper's doc comment names the outside
//! function it relies on. Two results are named, because they are functions
//! of their texts alone: the parse acceptance of JSON, and what Handlebars
//! makes of a template and a context. Tera reads the filesystem and Liquid
//! can read the clock, so nothing is promised of what they render.
use vstd::prelude::*;

verus! {

#[verifier::external_type_specification]
#[verifier::external_body]
pub struct ExJsonValue(serde_json::Value);

#[verifier::external_type_specification]
#[verifier::external_body]
pub struct ExJsonError(serde_json::Error);

/// Whether serde_json's parser accepts a text as JSON: a function of the
/// text alone.
pub uninterp spec fn json_accepts(text: Seq<char>) -> bool;

/// Relies on serde_json::from_str::<Value>: it parses the text as one JSON
/// document, and whether it succeeds depends on the text alone.
#[verifier::external_body]
pub(crate) fn json_from_str(text: &str) -> (r: Result<serde_json::Value, serde_json::Error>)
    ensures
        r is Ok <==> json_accepts(text@),
{
    serde_json::from_str(text)
}

/// Relies on serde_json::Error's Display implementation for the parser's
/// report.
#[verifier::external_body]
pub(crate) fn json_error_message(e: &serde_json::Error) -> String {
    e.to_string()
}

/// Relies on serde_json::Value::clone: a clone equals the original.
#[verifier::external_body]
pub(crate) fn json_clone(v: &serde_json::Value) -> (r: serde_json::Value)
    ensures
        r == *v,
{
    v.clone()
}

#[verifier::external_type_specification]
#[verifier::external_body]
pub struct ExTera(tera::Tera);

#[verifier::external_type_specification]
#[verifier::external_body]
pub struct ExTeraContext(tera::Context);

#[verifier::external_type_specification]
#[verifier::external_body]
pub struct ExTeraError(tera::Error);

/// Relies on tera::Context::from_value: the JSON value as a render context;
/// it fails when the value is no object at its top level.
#[verifier::external_body]
pub(crate) fn tera_context_from_value(v: serde_json::Value) -> Result<
    tera::Context,
    tera::Error,
> {
    tera::Context::from_value(v)
}

/// Relies on tera::Tera::new: an engine loaded with every template file the
/// glob names; what comes back depends on the filesystem. It refuses a glob
/// without any `*` in it, and it does not return on a pattern the directory
/// walker rejects — an alternation or character-class opener, or a trailing
/// backslash read as a dangling escape — so such texts are excluded here.
/// (A canonicalized parent directory that is no
/// UTF-8 text also fails to return; that depends on what is on disk, which
/// no condition on the arguments can exclude.)
#[verifier::external_body]
pub(crate) fn tera_new(glob: &str) -> Result<tera::Tera, tera::Error>
    requires
        crate::paths::glob_safe(glob@),
{
    tera::Tera::new(glob)
}

/// Relies on tera::Tera::add_raw_template: it parses the content and
/// registers it under the name.
#[verifier::external_body]
pub(crate) fn tera_add_raw_template(t: &mut tera::Tera, name: &str, content: &str) -> Result<
    (),
    tera::Error,
> {
    t.add_raw_template(name, content)
}

/// Relies on tera::Tera::render: the named template rendered against the
/// context.
#[verifier::external_body]
pub(crate) fn tera_render(t: &tera::Tera, name: &str, ctx: &tera::Context) -> Result<
    String,
    tera::Error,
> {
    t.render(name, ctx)
}

/// Relies on tera::Error's Display implementation.
#[verifier::external_body]
pub(crate) fn tera_error_message(e: &tera::Error) -> String {
    e.to_string()
}

/// What Handlebars makes of a template body and a JSON context text: the
/// rendered text, or the failure's report. A function of the two texts
/// alone — the default registry reads no file, clock or randomness.
pub uninterp spec fn hbs_outcome(tpl: Seq<char>, ctx: Seq<char>) -> Result<Seq<char>, Seq<char>>;

/// Relies on serde_json::from_str::<Value> and on
/// handlebars::Handlebars::render_template with the default registry: the
/// text parses (the caller owes that), and what the engine then renders —
/// text or failure report — depends on the two texts alone.
#[verifier::external_body]
pub(crate) fn hbs_render_text(tpl: &str, ctx_text: &str) -> (r: Result<String, String>)
    requires
        json_accepts(ctx_text@),
    ensures
        match hbs_outcome(tpl@, ctx_text@) {
            Ok(s) => r matches Ok(x) && x@ == s,
            Err(m) => r matches Err(x) && x@ == m,
        },
{
    let value: serde_json::Value = serde_json::from_str(ctx_text).unwrap();
    handlebars::Handlebars::new().render_template(tpl, &value).map_err(|e| e.to_string())
}

#[verifier::external_type_specification]
#[verifier::external_body]
pub struct ExLiquidParser(liquid::Parser);

#[verifier::external_type_specification]
#[verifier::external_body]
pub struct ExLiquidTemplate(liquid::Template);

#[verifier::external_type_specification]
#[verifier::external_body]
pub struct ExLiquidObject(liquid::Object);

#[verifier::external_type_specification]
#[verifier::external_body]
pub struct ExLiquidError(liquid::Error);

/// Relies on liquid::ParserBuilder::with_stdlib and its build: the parser
/// holding the standard library of tags and filters.
#[verifier::external_body]
pub(crate) fn liquid_parser() -> Result<liquid::Parser, liquid::Error> {
    liquid::ParserBuilder::with_stdlib().build()
}

/// Relies on liquid::Parser::parse: the text compiled into a template.
#[verifier::external_body]
pub(crate) fn liquid_parse(p: &liquid::Parser, text: &str) -> Result<
    liquid::Template,
    liquid::Error,
> {
    p.parse(text)
}

/// Relies on liquid::to_object: the JSON value converted into the engine's
/// own object model; it fails when the value is no object at its top level.
#[verifier::external_body]
pub(crate) fn liquid_to_object(v: &serde_json::Value) -> Result<liquid::Object, liquid::Error> {
    liquid::to_object(v)
}

/// Relies on liquid::Template::render: the template rendered against the
/// globals.
#[verifier::external_body]
pub(crate) fn liquid_render(t: &liquid::Template, globals: &liquid::Object) -> Result<
    String,
    liquid::Error,
> {
    t.render(globals)
}

/// Relies on liquid::Error's Display implementation.
#[verifier::external_body]
pub(crate) fn liquid_error_message(e: &liquid::Error) -> String {
    e.to_string()
}

} // verus!
