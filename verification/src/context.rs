//! Which JSON context belongs to a template — a cascade with the explicit
//! choice first and the working directory's default last — and the context
//! document itself: a parsed JSON value with the path it can be blamed on.
use vstd::prelude::*;
use crate::error::RenditError;
use crate::interop::{json_accepts, json_error_message, json_from_str};
use crate::paths::{spec_with_extension, spec_with_file_name, with_extension, with_file_name};

verus! {

/// The sibling context file named after the template: `<stem>.ctx.json`.
pub open spec fn spec_sibling_context(t: Seq<char>) -> Seq<char> {
    spec_with_extension(t, "ctx.json"@)
}

/// The fallback context file beside the template: `default.ctx.json`.
pub open spec fn spec_default_sibling(t: Seq<char>) -> Seq<char> {
    spec_with_file_name(t, "default.ctx.json"@)
}

/// The two candidate context files that sit beside a template.
pub fn context_candidates(template_path: &str) -> (r: (String, String))
    ensures
        r.0@ == spec_sibling_context(template_path@),
        r.1@ == spec_default_sibling(template_path@),
{
    (with_extension(template_path, "ctx.json"), with_file_name(template_path, "default.ctx.json"))
}

/// The cascade, first match wins: the explicit path; the sibling
/// `<stem>.ctx.json` when it exists; the sibling `default.ctx.json` when it
/// exists; else — and also when no template file is known at all — the
/// `default.ctx.json` of the working directory.
pub open spec fn spec_choose_context_path(
    explicit: Option<Seq<char>>,
    template: Option<Seq<char>>,
    sibling_exists: bool,
    default_sibling_exists: bool,
) -> Seq<char> {
    match explicit {
        Some(p) => p,
        None => match template {
            Some(t) => if sibling_exists {
                spec_sibling_context(t)
            } else if default_sibling_exists {
                spec_default_sibling(t)
            } else {
                "default.ctx.json"@
            },
            None => "default.ctx.json"@,
        },
    }
}

/// Pick the context file. The two flags answer whether the sibling
/// candidates exist; they matter only when no explicit path was given and a
/// template path is known.
pub fn choose_context_path(
    explicit: Option<&str>,
    template: Option<&str>,
    sibling_exists: bool,
    default_sibling_exists: bool,
) -> (r: String)
    ensures
        r@ == spec_choose_context_path(
            explicit.deep_view(),
            template.deep_view(),
            sibling_exists,
            default_sibling_exists,
        ),
{
    match explicit {
        Some(p) => p.to_owned(),
        None => match template {
            Some(t) => if sibling_exists {
                with_extension(t, "ctx.json")
            } else if default_sibling_exists {
                with_file_name(t, "default.ctx.json")
            } else {
                "default.ctx.json".to_owned()
            },
            None => "default.ctx.json".to_owned(),
        },
    }
}

/// The cascade in order, with no explicit choice: beside the template the
/// named sibling wins; without it, the sibling default; without both, the
/// working directory's default.
pub proof fn lemma_context_cascade(t: Seq<char>, default_sibling_exists: bool)
    ensures
        spec_choose_context_path(None, Some(t), true, default_sibling_exists)
            == spec_sibling_context(t),
        spec_choose_context_path(None, Some(t), false, true) == spec_default_sibling(t),
        spec_choose_context_path(None, Some(t), false, false) == "default.ctx.json"@,
{
}

/// A context: the parsed JSON value, opaque to everything but the engines,
/// beside the text it was parsed from and the path it was read from.
pub struct ContextDocument {
    value: serde_json::Value,
    text: String,
    source_path: String,
}

/// The mathematical model of a context document: its text and its path. The
/// parsed value stays opaque.
pub struct ContextModel {
    pub text: Seq<char>,
    pub source_path: Seq<char>,
}

impl View for ContextDocument {
    type V = ContextModel;

    closed spec fn view(&self) -> ContextModel {
        ContextModel { text: self.text@, source_path: self.source_path@ }
    }
}

impl ContextDocument {
    /// A context document only ever comes out of a successful parse of its
    /// own text.
    #[verifier::type_invariant]
    closed spec fn wf(self) -> bool {
        json_accepts(self.text@)
    }

    /// Parse `text`, read from `source_path`, as the JSON context. This
    /// succeeds exactly when the text is well-formed JSON; the error carries
    /// the path it can be blamed on and the parser's report.
    pub fn from_text(text: &str, source_path: String) -> (r: Result<ContextDocument, RenditError>)
        ensures
            r is Ok <==> json_accepts(text@),
            r matches Ok(d) ==> d@.text == text@ && d@.source_path == source_path@,
            r matches Err(e) ==> e matches RenditError::ContextParse(p, _) && p@ == source_path@,
    {
        match json_from_str(text) {
            Ok(v) => Ok(ContextDocument { value: v, text: text.to_owned(), source_path }),
            Err(e) => {
                let m = json_error_message(&e);
                Err(RenditError::ContextParse(source_path, m))
            },
        }
    }

    /// The path the context was read from.
    pub fn source_path(&self) -> (r: &str)
        ensures
            r@ == self@.source_path,
    {
        self.source_path.as_str()
    }

    /// The text the context was parsed from — and it does parse: the one
    /// constructor made sure of it.
    pub(crate) fn parsed_text(&self) -> (r: &str)
        ensures
            r@ == self@.text,
            json_accepts(self@.text),
    {
        proof {
            use_type_invariant(self);
        }
        self.text.as_str()
    }

    /// The parsed value, handed to the engines.
    pub(crate) fn value_ref(&self) -> &serde_json::Value {
        &self.value
    }
}

} // verus!
