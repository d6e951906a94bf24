//! Engine detection: classify a template body as the engine it calls for.
//! Precedence, highest first: a forced engine; a recognized file extension
//! (`tera`, `hbs`, `liq`, matched exactly); the first in-content marker;
//! otherwise the content passes through untouched.
use vstd::prelude::*;
use crate::engine::TemplateEngine;
use crate::marker::{has_marker, marker_name, stripped_content, scan_marker};
use crate::text::{chars_of, chars_eq_str, lower_seq, string_from_chars, trim_seq};

verus! {

/// A template body, classified: which engine it is for, and the content the
/// engine will see. `Unknown` carries the lowercased name the marker asked
/// for, beside the content with the marker already removed.
pub enum TemplateChoice {
    Tera(String),
    Handlebars(String),
    Liquid(String),
    Unknown(String, String),
    NoEngine(String),
}

/// The mathematical model of a classified template.
pub enum TemplateModel {
    Tera(Seq<char>),
    Handlebars(Seq<char>),
    Liquid(Seq<char>),
    Unknown(Seq<char>, Seq<char>),
    NoEngine(Seq<char>),
}

impl View for TemplateChoice {
    type V = TemplateModel;

    open spec fn view(&self) -> TemplateModel {
        match self {
            TemplateChoice::Tera(c) => TemplateModel::Tera(c@),
            TemplateChoice::Handlebars(c) => TemplateModel::Handlebars(c@),
            TemplateChoice::Liquid(c) => TemplateModel::Liquid(c@),
            TemplateChoice::Unknown(n, c) => TemplateModel::Unknown(n@, c@),
            TemplateChoice::NoEngine(c) => TemplateModel::NoEngine(c@),
        }
    }
}

impl TemplateChoice {
    /// The name of the engine this template was classified for.
    pub fn get_engine(&self) -> (r: &'static str)
        ensures
            r@ == spec_get_engine(self@),
    {
        match self {
            TemplateChoice::Tera(_) => "tera",
            TemplateChoice::Handlebars(_) => "handlebars",
            TemplateChoice::Liquid(_) => "liquid",
            TemplateChoice::Unknown(_, _) => "unknown",
            TemplateChoice::NoEngine(_) => "no_engine",
        }
    }
}

/// The display name `get_engine` answers for each classification.
pub open spec fn spec_get_engine(t: TemplateModel) -> Seq<char> {
    match t {
        TemplateModel::Tera(_) => "tera"@,
        TemplateModel::Handlebars(_) => "handlebars"@,
        TemplateModel::Liquid(_) => "liquid"@,
        TemplateModel::Unknown(_, _) => "unknown"@,
        TemplateModel::NoEngine(_) => "no_engine"@,
    }
}

/// Classification by the first in-content marker alone: a recognized name
/// picks its engine and the content is the body with the marker stripped and
/// trimmed; an unrecognized name is kept for the error report; no marker
/// means pass-through of the whole body.
pub open spec fn spec_detect_content(s: Seq<char>) -> TemplateModel {
    if has_marker(s) {
        let name = marker_name(s);
        let rest = stripped_content(s);
        if name == "tera"@ {
            TemplateModel::Tera(rest)
        } else if name == "hbs"@ || name == "handlebars"@ {
            TemplateModel::Handlebars(rest)
        } else if name == "liq"@ || name == "liquid"@ {
            TemplateModel::Liquid(rest)
        } else {
            TemplateModel::Unknown(name, rest)
        }
    } else {
        TemplateModel::NoEngine(s)
    }
}

/// Classification with the originating file's extension known: the exact
/// extensions `tera`, `hbs` and `liq` decide by themselves, with the content
/// untouched; any other extension falls through to the content scan.
pub open spec fn spec_detect_template(s: Seq<char>, ext: Option<Seq<char>>) -> TemplateModel {
    match ext {
        Some(x) => {
            if x == "tera"@ {
                TemplateModel::Tera(s)
            } else if x == "hbs"@ {
                TemplateModel::Handlebars(s)
            } else if x == "liq"@ {
                TemplateModel::Liquid(s)
            } else {
                spec_detect_content(s)
            }
        },
        None => spec_detect_content(s),
    }
}

/// Classify a template body by its first in-content marker.
pub fn detect_content(contents: &str) -> (t: TemplateChoice)
    ensures
        t@ == spec_detect_content(contents@),
{
    let v = chars_of(contents);
    match scan_marker(&v) {
        Some(hit) => {
            let (name, rest) = hit;
            let rest_s = string_from_chars(rest);
            if chars_eq_str(&name, "tera") {
                TemplateChoice::Tera(rest_s)
            } else if chars_eq_str(&name, "hbs") || chars_eq_str(&name, "handlebars") {
                TemplateChoice::Handlebars(rest_s)
            } else if chars_eq_str(&name, "liq") || chars_eq_str(&name, "liquid") {
                TemplateChoice::Liquid(rest_s)
            } else {
                TemplateChoice::Unknown(string_from_chars(name), rest_s)
            }
        },
        None => TemplateChoice::NoEngine(contents.to_owned()),
    }
}

/// Classify a template body, with the originating file's extension when one
/// is known.
pub fn detect_template(contents: &str, extension: Option<&str>) -> (t: TemplateChoice)
    ensures
        t@ == spec_detect_template(contents@, extension.deep_view()),
{
    match extension {
        Some(x) => {
            let xv = chars_of(x);
            if chars_eq_str(&xv, "tera") {
                TemplateChoice::Tera(contents.to_owned())
            } else if chars_eq_str(&xv, "hbs") {
                TemplateChoice::Handlebars(contents.to_owned())
            } else if chars_eq_str(&xv, "liq") {
                TemplateChoice::Liquid(contents.to_owned())
            } else {
                detect_content(contents)
            }
        },
        None => detect_content(contents),
    }
}

/// How the engine is to be decided: inspection, or a caller's override.
#[derive(Clone, Copy, Debug, PartialEq, Eq, Structural)]
pub enum DetectionMethod {
    Auto,
    Force(TemplateEngine),
}

impl DetectionMethod {
    /// A present engine choice forces it; absence means inspection.
    pub fn from_option(e: Option<TemplateEngine>) -> (r: DetectionMethod)
        ensures
            r == match e {
                Some(g) => DetectionMethod::Force(g),
                None => DetectionMethod::Auto,
            },
    {
        match e {
            Some(g) => DetectionMethod::Force(g),
            None => DetectionMethod::Auto,
        }
    }
}

/// A forced engine takes the whole body as it stands; no marker is looked
/// for and none is stripped.
pub open spec fn spec_forced_template(e: TemplateEngine, s: Seq<char>) -> TemplateModel {
    match e {
        TemplateEngine::Tera => TemplateModel::Tera(s),
        TemplateEngine::Liquid => TemplateModel::Liquid(s),
        TemplateEngine::Handlebars => TemplateModel::Handlebars(s),
        TemplateEngine::NoEngine => TemplateModel::NoEngine(s),
    }
}

/// The classification the render pass works from: the forced engine when one
/// was given, else detection by extension and content.
pub open spec fn spec_choose_template(
    s: Seq<char>,
    ext: Option<Seq<char>>,
    method: DetectionMethod,
) -> TemplateModel {
    match method {
        DetectionMethod::Force(e) => spec_forced_template(e, s),
        DetectionMethod::Auto => spec_detect_template(s, ext),
    }
}

/// Classify a template body under the chosen detection method.
pub fn choose_template(contents: &str, extension: Option<&str>, method: DetectionMethod) -> (t:
    TemplateChoice)
    ensures
        t@ == spec_choose_template(contents@, extension.deep_view(), method),
{
    match method {
        DetectionMethod::Force(e) => match e {
            TemplateEngine::Tera => TemplateChoice::Tera(contents.to_owned()),
            TemplateEngine::Liquid => TemplateChoice::Liquid(contents.to_owned()),
            TemplateEngine::Handlebars => TemplateChoice::Handlebars(contents.to_owned()),
            TemplateEngine::NoEngine => TemplateChoice::NoEngine(contents.to_owned()),
        },
        DetectionMethod::Auto => detect_template(contents, extension),
    }
}

/// A recognized extension decides the engine, whatever the content says:
/// content and markers in it never overrule `tera`, `hbs` or `liq`.
pub proof fn lemma_extension_precedence(s: Seq<char>, x: Seq<char>)
    ensures
        x == "tera"@ ==> spec_detect_template(s, Some(x)) == TemplateModel::Tera(s),
        x == "hbs"@ ==> spec_detect_template(s, Some(x)) == TemplateModel::Handlebars(s),
        x == "liq"@ ==> spec_detect_template(s, Some(x)) == TemplateModel::Liquid(s),
{
    reveal_strlit("tera");
    reveal_strlit("hbs");
    reveal_strlit("liq");
    assert("tera"@.len() == 4);
    assert("hbs"@.len() == 3);
    assert("liq"@.len() == 3);
    assert("hbs"@[0] == 'h' && "liq"@[0] == 'l');
}

/// A content body that opens with the marker `<!--template tera-->` is
/// classified for Tera, and the marker text is no part of the content handed
/// to the engine: what remains is the body after the marker, trimmed.
pub proof fn lemma_leading_tera_marker(s: Seq<char>, rest: Seq<char>)
    requires
        s == "<!--template tera-->"@ + rest,
    ensures
        spec_detect_content(s) == TemplateModel::Tera(trim_seq(rest)),
{
    reveal_strlit("<!--template tera-->");
    reveal_strlit("tera");
    let m = "<!--template tera-->"@;
    assert(m.len() == 20);
    assert(s.len() == 20 + rest.len());
    assert forall|u: int| 0 <= u < 20 implies s[u] == m[u] by {}
    // the fixed opening, already lowercase
    assert(crate::marker::keyword_at(s, 0)) by {
        assert(lower_seq(s.subrange(0, 12)) =~= crate::marker::marker_keyword()) by {
            assert forall|u: int| 0 <= u < 12 implies lower_seq(s.subrange(0, 12))[u]
                == crate::marker::marker_keyword()[u] by {
                assert(s.subrange(0, 12)[u] == s[u]);
            }
        }
    }
    // one space, then the name `tera`, then the closing arrow
    assert(crate::text::skip_spaces(s, 13) == 13);
    assert(crate::text::skip_spaces(s, 12) == 13);
    assert(crate::marker::name_start_at(s, 0) == 13);
    assert(crate::text::skip_word(s, 17) == 17);
    assert(crate::text::skip_word(s, 16) == 17);
    assert(crate::text::skip_word(s, 15) == 17);
    assert(crate::text::skip_word(s, 14) == 17);
    assert(crate::text::skip_word(s, 13) == 17);
    assert(crate::marker::name_end_at(s, 0) == 17);
    assert(crate::marker::close_at(s, 0) == 17);
    assert(crate::marker::marker_matches_at(s, 0));
    assert(crate::marker::first_marker(s) == 0);
    assert(has_marker(s));
    assert(marker_name(s) == "tera"@) by {
        assert(s.subrange(13, 17) =~= "tera"@);
        assert(lower_seq("tera"@) =~= "tera"@);
    }
    assert(stripped_content(s) == trim_seq(rest)) by {
        assert(s.subrange(0, 0) + s.subrange(20, s.len() as int) =~= rest);
    }
}

} // verus!
