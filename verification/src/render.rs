//! The render dispatcher: classify the template body, then drive the chosen
//! engine against the context. The pass-through returns the body unchanged;
//! an unrecognized marker fails without any engine being invoked; each
//! engine failure is wrapped into the error of its stage.
use vstd::prelude::*;
use vstd::string::StringExecFns;
use crate::context::ContextDocument;
use crate::detect::{
    choose_template, spec_choose_template, DetectionMethod, TemplateChoice, TemplateModel,
};
use crate::error::RenditError;
use crate::interop::{
    hbs_outcome, hbs_render_text, json_clone, liquid_error_message, liquid_parse, liquid_parser,
    liquid_render, liquid_to_object, tera_add_raw_template, tera_context_from_value,
    tera_error_message, tera_new, tera_render,
};
use crate::paths::{is_glob_safe, with_file_name, TemplateFile};

verus! {

/// A template body and, when it came from a file, that file's path and the
/// parts of its name.
pub struct TemplateSource {
    pub contents: String,
    pub file: Option<TemplateFile>,
}

/// The extension the originating file declares, if any: what engine
/// detection goes by before it scans the content.
pub open spec fn spec_source_extension(t: &TemplateSource) -> Option<Seq<char>> {
    match &t.file {
        Some(f) => match &f.parts.extension {
            Some(x) => Some(x@),
            None => None,
        },
        None => None,
    }
}

/// The outcome of a successful render pass.
pub struct RenderedTemplate(pub String);

/// The extension the engine should pretend the template has — it steers
/// auto-escaping — or the template's own.
pub enum TemplateExtension<'a> {
    Auto,
    Force(&'a str),
}

impl<'a> TemplateExtension<'a> {
    /// A present hint forces the extension; absence keeps the template's own.
    pub fn from_option(x: Option<&'a str>) -> (r: TemplateExtension<'a>)
        ensures
            r == match x {
                Some(s) => TemplateExtension::Force(s),
                None => TemplateExtension::<'a>::Auto,
            },
    {
        match x {
            Some(s) => TemplateExtension::Force(s),
            None => TemplateExtension::Auto,
        }
    }
}

/// The synthetic name the template body is registered under; its extension
/// steers the engine's auto-escaping.
pub fn in_memory_name(template_type: &str) -> (r: String)
    ensures
        r@ == "__in_memory__."@ + template_type@,
{
    let mut name = "__in_memory__.".to_owned();
    name.append(template_type);
    name
}

/// The extension the engine treats the body as having: the forced hint when
/// one was given, else the template file's own extension, else `html`.
pub open spec fn spec_effective_extension<'a>(
    extension: TemplateExtension<'a>,
    t: &TemplateSource,
) -> Seq<char> {
    match extension {
        TemplateExtension::Force(x) => x@,
        TemplateExtension::Auto => match &t.file {
            Some(f) => match &f.parts.extension {
                Some(x) => x@,
                None => "html"@,
            },
            None => "html"@,
        },
    }
}

/// Pick the effective extension for a render pass.
pub fn effective_extension<'a>(
    extension: TemplateExtension<'a>,
    source: &'a TemplateSource,
) -> (r: &'a str)
    ensures
        r@ == spec_effective_extension(extension, source),
{
    match extension {
        TemplateExtension::Force(x) => x,
        TemplateExtension::Auto => match &source.file {
            Some(f) => match &f.parts.extension {
                Some(x) => x.as_str(),
                None => "html",
            },
            None => "html",
        },
    }
}

/// The glob the Tera engine is pointed at: every file under the template
/// file's directory — or under the fallback root's, when the body came from
/// no file — so sibling templates resolve.
pub open spec fn spec_tera_glob(t: &TemplateSource, fallback_root: Seq<char>) -> Seq<char> {
    match &t.file {
        Some(f) => crate::paths::spec_with_file_name(f.path@, "**/*.*"@),
        None => crate::paths::spec_with_file_name(fallback_root, "**/*.*"@),
    }
}

/// Build the glob that anchors Tera's sibling templates.
pub fn tera_glob(source: &TemplateSource, fallback_root: &str) -> (r: String)
    ensures
        r@ == spec_tera_glob(source, fallback_root@),
{
    let root: &str = match &source.file {
        Some(f) => f.path.as_str(),
        None => fallback_root,
    };
    with_file_name(root, "**/*.*")
}

/// Drive Tera. The sibling glob from `tera_glob` is checked first: one the
/// walker would refuse is the parser-build error below before anything is
/// handed to the engine. Then the context value must form an object; the
/// engine is loaded from the glob; and the body is registered under the
/// `in_memory_name` of the `effective_extension`, whose suffix steers
/// auto-escaping, and rendered.
fn render_tera(
    contents: &str,
    context: &ContextDocument,
    source: &TemplateSource,
    extension: TemplateExtension<'_>,
    fallback_root: &str,
) -> (r: Result<RenderedTemplate, RenditError>)
    ensures
        r matches Err(e) ==> {
            ||| e is ContextRejected
            ||| e is ParserBuild
            ||| e is TemplateParse
            ||| e is Render
        },
        !crate::paths::glob_safe(spec_tera_glob(source, fallback_root@)) ==> (r matches Err(e) && (
        e matches RenditError::ParserBuild(m) && m@
            == "the template's directory path holds a character the glob walker refuses"@)),
{
    let glob = tera_glob(source, fallback_root);
    if !is_glob_safe(glob.as_str()) {
        return Err(
            RenditError::ParserBuild(
                "the template's directory path holds a character the glob walker refuses".to_owned(),
            ),
        );
    }
    let ctx_v = json_clone(context.value_ref());
    let tctx = match tera_context_from_value(ctx_v) {
        Ok(c) => c,
        Err(e) => {
            return Err(RenditError::ContextRejected(tera_error_message(&e)));
        },
    };
    let mut engine = match tera_new(glob.as_str()) {
        Ok(t) => t,
        Err(e) => {
            return Err(RenditError::ParserBuild(tera_error_message(&e)));
        },
    };
    let template_type: &str = effective_extension(extension, source);
    let name = in_memory_name(template_type);
    match tera_add_raw_template(&mut engine, name.as_str(), contents) {
        Ok(u) => u,
        Err(e) => {
            return Err(RenditError::TemplateParse(tera_error_message(&e)));
        },
    };
    match tera_render(&engine, name.as_str(), &tctx) {
        Ok(s) => Ok(RenderedTemplate(s)),
        Err(e) => Err(RenditError::Render(tera_error_message(&e))),
    }
}

/// Drive Handlebars: the body is parsed and rendered against the context's
/// text with the engine's own defaults. The outcome — text or render-stage
/// error — is pinned to what the engine makes of the two texts, so two
/// passes over the same inputs agree.
fn render_handlebars(contents: &str, context: &ContextDocument) -> (r: Result<
    RenderedTemplate,
    RenditError,
>)
    ensures
        match hbs_outcome(contents@, context@.text) {
            Ok(s) => r matches Ok(out) && out.0@ == s,
            Err(m) => r matches Err(e) && (e matches RenditError::Render(mm) && mm@ == m),
        },
{
    match hbs_render_text(contents, context.parsed_text()) {
        Ok(s) => Ok(RenderedTemplate(s)),
        Err(m) => Err(RenditError::Render(m)),
    }
}

/// Drive Liquid: build the parser, parse the body, convert the context into
/// the engine's object model, render — each stage failing as itself.
fn render_liquid(contents: &str, context: &ContextDocument) -> (r: Result<
    RenderedTemplate,
    RenditError,
>)
    ensures
        r matches Err(e) ==> {
            ||| e is ParserBuild
            ||| e is TemplateParse
            ||| e is ContextRejected
            ||| e is Render
        },
{
    let parser = match liquid_parser() {
        Ok(p) => p,
        Err(e) => {
            return Err(RenditError::ParserBuild(liquid_error_message(&e)));
        },
    };
    let template = match liquid_parse(&parser, contents) {
        Ok(t) => t,
        Err(e) => {
            return Err(RenditError::TemplateParse(liquid_error_message(&e)));
        },
    };
    let globals = match liquid_to_object(context.value_ref()) {
        Ok(o) => o,
        Err(e) => {
            return Err(RenditError::ContextRejected(liquid_error_message(&e)));
        },
    };
    match liquid_render(&template, &globals) {
        Ok(s) => Ok(RenderedTemplate(s)),
        Err(e) => Err(RenditError::Render(liquid_error_message(&e))),
    }
}

/// One render pass. The classification decides everything the library owns:
/// a pass-through returns the body unchanged; an unrecognized marker fails
/// with the name it carried and no engine is invoked; a real engine's
/// failure comes back as the error of the stage it failed in.
/// `fallback_root` is the file whose directory anchors sibling templates
/// when the body did not come from a file.
pub fn render(
    template: &TemplateSource,
    context: &ContextDocument,
    detection: DetectionMethod,
    extension: TemplateExtension<'_>,
    fallback_root: &str,
) -> (r: Result<RenderedTemplate, RenditError>)
    ensures
        ({
            let chosen = spec_choose_template(
                template.contents@,
                spec_source_extension(template),
                detection,
            );
            &&& (chosen matches TemplateModel::NoEngine(c) ==> r matches Ok(out) && out.0@ == c)
            &&& (chosen matches TemplateModel::Unknown(n, _) ==> r matches Err(e) && (
            e matches RenditError::EngineUnrecognized(m) && m@ == n))
            &&& (chosen is Tera ==> (r is Ok || (r matches Err(e) && {
                ||| e is ContextRejected
                ||| e is ParserBuild
                ||| e is TemplateParse
                ||| e is Render
            })))
            &&& (chosen is Tera && !crate::paths::glob_safe(
                spec_tera_glob(template, fallback_root@),
            ) ==> (r matches Err(e) && (e matches RenditError::ParserBuild(m) && m@
                == "the template's directory path holds a character the glob walker refuses"@)))
            &&& (chosen matches TemplateModel::Handlebars(c) ==> match hbs_outcome(
                c,
                context@.text,
            ) {
                Ok(s) => r matches Ok(out) && out.0@ == s,
                Err(m) => r matches Err(e) && (e matches RenditError::Render(mm) && mm@ == m),
            })
            &&& (chosen is Liquid ==> (r is Ok || (r matches Err(e) && {
                ||| e is ParserBuild
                ||| e is TemplateParse
                ||| e is ContextRejected
                ||| e is Render
            })))
        }),
{
    let ext_arg: Option<&str> = match &template.file {
        Some(f) => match &f.parts.extension {
            Some(x) => Some(x.as_str()),
            None => None,
        },
        None => None,
    };
    proof {
        assert(ext_arg.deep_view() == spec_source_extension(template));
    }
    let chosen = choose_template(template.contents.as_str(), ext_arg, detection);
    match chosen {
        TemplateChoice::Tera(contents) => render_tera(
            contents.as_str(),
            context,
            template,
            extension,
            fallback_root,
        ),
        TemplateChoice::Handlebars(contents) => render_handlebars(contents.as_str(), context),
        TemplateChoice::Liquid(contents) => render_liquid(contents.as_str(), context),
        TemplateChoice::Unknown(name, _) => Err(RenditError::EngineUnrecognized(name)),
        TemplateChoice::NoEngine(raw) => Ok(RenderedTemplate(raw)),
    }
}

/// Repeatability, as far as the library itself decides the outcome: the
/// classification of a body is a function of the body, the extension and
/// the method alone, so any two render passes over the same inputs whose
/// classification is the pass-through return the very same text. What a
/// real engine returns for its classified content is the engine's own
/// affair and is not restated here.
pub proof fn lemma_passthrough_repeatable(
    c: Seq<char>,
    r1: Result<RenderedTemplate, RenditError>,
    r2: Result<RenderedTemplate, RenditError>,
)
    requires
        r1 matches Ok(o) && o.0@ == c,
        r2 matches Ok(o) && o.0@ == c,
    ensures
        r1 matches Ok(o1) && (r2 matches Ok(o2) && o1.0@ == o2.0@),
{
}

/// Repeatability for Handlebars: the engine's outcome is a function of the
/// template and context texts, so two render passes whose classification is
/// Handlebars over the same texts agree — the same rendered text, or the
/// same render-stage message.
pub proof fn lemma_handlebars_repeatable(
    c: Seq<char>,
    ctx_text: Seq<char>,
    r1: Result<RenderedTemplate, RenditError>,
    r2: Result<RenderedTemplate, RenditError>,
)
    requires
        match crate::interop::hbs_outcome(c, ctx_text) {
            Ok(s) => r1 matches Ok(out) && out.0@ == s,
            Err(m) => r1 matches Err(e) && (e matches RenditError::Render(mm) && mm@ == m),
        },
        match crate::interop::hbs_outcome(c, ctx_text) {
            Ok(s) => r2 matches Ok(out) && out.0@ == s,
            Err(m) => r2 matches Err(e) && (e matches RenditError::Render(mm) && mm@ == m),
        },
    ensures
        r1 is Ok <==> r2 is Ok,
        r1 matches Ok(o1) ==> (r2 matches Ok(o2) && o1.0@ == o2.0@),
        r1 matches Err(e1) ==> (r2 matches Err(e2) && crate::error::spec_message(&e1)
            == crate::error::spec_message(&e2)),
{
}

/// An unrecognized marker never reaches an engine: whatever the two passes,
/// the error is the same, naming the same unknown engine.
pub proof fn lemma_unrecognized_repeatable(
    n: Seq<char>,
    r1: Result<RenderedTemplate, RenditError>,
    r2: Result<RenderedTemplate, RenditError>,
)
    requires
        r1 matches Err(e) && (e matches RenditError::EngineUnrecognized(m) && m@ == n),
        r2 matches Err(e) && (e matches RenditError::EngineUnrecognized(m) && m@ == n),
    ensures
        r1 matches Err(e1) && (r2 matches Err(e2) && crate::error::spec_message(&e1)
            == crate::error::spec_message(&e2)),
{
}

} // verus!
