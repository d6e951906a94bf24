//! The library's error model: one variant per failure stage, each carrying
//! the offending path or the engine's own message, and a verified renderer
//! for the one-line report that the scheduler compares and prints.
use vstd::prelude::*;
use vstd::string::StringExecFns;

verus! {

/// What can go wrong in one render pass, by stage.
#[derive(Debug)]
pub enum RenditError {
    /// A path without a usable file name: empty, or a filesystem root.
    IllegalPath,
    /// The template file could not be read; carries its path.
    TemplateRead(String),
    /// The context file could not be read; carries its path.
    ContextRead(String),
    /// The context file held no well-formed JSON; carries its path and the
    /// parser's message.
    ContextParse(String, String),
    /// A marker or a forced name asked for an engine nobody knows; carries
    /// the lowercased name.
    EngineUnrecognized(String),
    /// An engine could not set up its parser; carries the engine's message.
    ParserBuild(String),
    /// An engine rejected the template while parsing it.
    TemplateParse(String),
    /// An engine rejected the context value.
    ContextRejected(String),
    /// An engine failed while rendering.
    Render(String),
    /// The rendered output could not be written; carries the output path.
    OutputWrite(String),
}

/// The one-line report for an error, the text the scheduler deduplicates on.
pub open spec fn spec_message(e: &RenditError) -> Seq<char> {
    match e {
        RenditError::IllegalPath => "Path must not be empty or root."@,
        RenditError::TemplateRead(p) => "Unable to load template file \""@ + p@ + "\""@,
        RenditError::ContextRead(p) => "Unable to load context file \""@ + p@ + "\""@,
        RenditError::ContextParse(p, m) => "Unable to parse JSON context from file \""@ + p@
            + "\": "@ + m@,
        RenditError::EngineUnrecognized(n) => "Unknown template engine: `"@ + n@ + "`"@,
        RenditError::ParserBuild(m) => "Unable to build the template parser: "@ + m@,
        RenditError::TemplateParse(m) => "Unable to parse the template: "@ + m@,
        RenditError::ContextRejected(m) => "The engine rejected the context object: "@ + m@,
        RenditError::Render(m) => "Unable to render the template: "@ + m@,
        RenditError::OutputWrite(p) => "Unable to write rendered output to file \""@ + p@ + "\""@,
    }
}

impl RenditError {
    /// Render the one-line report.
    pub fn message(&self) -> (r: String)
        ensures
            r@ == spec_message(self),
    {
        match self {
            RenditError::IllegalPath => "Path must not be empty or root.".to_owned(),
            RenditError::TemplateRead(p) => {
                let mut m = "Unable to load template file \"".to_owned();
                m.append(p.as_str());
                m.append("\"");
                m
            },
            RenditError::ContextRead(p) => {
                let mut m = "Unable to load context file \"".to_owned();
                m.append(p.as_str());
                m.append("\"");
                m
            },
            RenditError::ContextParse(p, e) => {
                let mut m = "Unable to parse JSON context from file \"".to_owned();
                m.append(p.as_str());
                m.append("\": ");
                m.append(e.as_str());
                m
            },
            RenditError::EngineUnrecognized(n) => {
                let mut m = "Unknown template engine: `".to_owned();
                m.append(n.as_str());
                m.append("`");
                m
            },
            RenditError::ParserBuild(e) => {
                let mut m = "Unable to build the template parser: ".to_owned();
                m.append(e.as_str());
                m
            },
            RenditError::TemplateParse(e) => {
                let mut m = "Unable to parse the template: ".to_owned();
                m.append(e.as_str());
                m
            },
            RenditError::ContextRejected(e) => {
                let mut m = "The engine rejected the context object: ".to_owned();
                m.append(e.as_str());
                m
            },
            RenditError::Render(e) => {
                let mut m = "Unable to render the template: ".to_owned();
                m.append(e.as_str());
                m
            },
            RenditError::OutputWrite(p) => {
                let mut m = "Unable to write rendered output to file \"".to_owned();
                m.append(p.as_str());
                m.append("\"");
                m
            },
        }
    }
}

} // verus!
