//! The engines a caller can ask for by name, and the (case-insensitive)
//! parsing of such a name as the command line hands it over.
use vstd::prelude::*;
use crate::error::RenditError;
use crate::text::{lower_seq, chars_of, lower_chars, chars_eq_str, string_from_chars};

verus! {

/// The engines a caller may name: the three real ones and the explicit
/// pass-through.
#[derive(Clone, Copy, Debug, PartialEq, Eq, Structural)]
pub enum TemplateEngine {
    Tera,
    Liquid,
    Handlebars,
    NoEngine,
}

/// The engine a lowercased name denotes, if any. `liq` and `hbs` are the
/// short forms of Liquid and Handlebars; `none` asks for the pass-through.
pub open spec fn engine_for_name(lower: Seq<char>) -> Option<TemplateEngine> {
    if lower == "tera"@ {
        Some(TemplateEngine::Tera)
    } else if lower == "liquid"@ || lower == "liq"@ {
        Some(TemplateEngine::Liquid)
    } else if lower == "handlebars"@ || lower == "hbs"@ {
        Some(TemplateEngine::Handlebars)
    } else if lower == "none"@ {
        Some(TemplateEngine::NoEngine)
    } else {
        None
    }
}

/// The lowercase display name of an engine.
pub open spec fn spec_engine_name(e: TemplateEngine) -> Seq<char> {
    match e {
        TemplateEngine::Tera => "tera"@,
        TemplateEngine::Liquid => "liquid"@,
        TemplateEngine::Handlebars => "handlebars"@,
        TemplateEngine::NoEngine => "none"@,
    }
}

/// Parse an engine name; letter case does not matter. An unknown name is the
/// `EngineUnrecognized` error, carrying the name in lowercase.
pub fn engine_from_str(s: &str) -> (r: Result<TemplateEngine, RenditError>)
    ensures
        match engine_for_name(lower_seq(s@)) {
            Some(e) => r matches Ok(g) && g == e,
            None => r matches Err(er) && (er matches RenditError::EngineUnrecognized(n) && n@
                == lower_seq(s@)),
        },
{
    let v = chars_of(s);
    let low = lower_chars(&v);
    if chars_eq_str(&low, "tera") {
        Ok(TemplateEngine::Tera)
    } else if chars_eq_str(&low, "liquid") || chars_eq_str(&low, "liq") {
        Ok(TemplateEngine::Liquid)
    } else if chars_eq_str(&low, "handlebars") || chars_eq_str(&low, "hbs") {
        Ok(TemplateEngine::Handlebars)
    } else if chars_eq_str(&low, "none") {
        Ok(TemplateEngine::NoEngine)
    } else {
        Err(RenditError::EngineUnrecognized(string_from_chars(low)))
    }
}

/// The engine's lowercase display name.
pub fn engine_name(e: &TemplateEngine) -> (r: &'static str)
    ensures
        r@ == spec_engine_name(*e),
{
    match e {
        TemplateEngine::Tera => "tera",
        TemplateEngine::Liquid => "liquid",
        TemplateEngine::Handlebars => "handlebars",
        TemplateEngine::NoEngine => "none",
    }
}

/// Every engine a caller may name, in the order they are listed to the user.
pub fn supported_engines() -> (v: Vec<TemplateEngine>)
    ensures
        v@ == seq![
            TemplateEngine::Tera,
            TemplateEngine::Liquid,
            TemplateEngine::Handlebars,
            TemplateEngine::NoEngine,
        ],
{
    let mut v: Vec<TemplateEngine> = Vec::new();
    v.push(TemplateEngine::Tera);
    v.push(TemplateEngine::Liquid);
    v.push(TemplateEngine::Handlebars);
    v.push(TemplateEngine::NoEngine);
    proof {
        assert(v@ =~= seq![
            TemplateEngine::Tera,
            TemplateEngine::Liquid,
            TemplateEngine::Handlebars,
            TemplateEngine::NoEngine,
        ]);
    }
    v
}

} // verus!
