//! JSON documents: parse, optional path query, compact or indented text,
//! and terminal colouring.
use serde_json::Value;
use serde_json_path::JsonPath;
use syntect::easy::HighlightLines;
use syntect::highlighting::ThemeSet;
use syntect::parsing::SyntaxSet;
use syntect::util::{as_24_bit_terminal_escaped, LinesWithEndings};
use vstd::prelude::*;

verus! {

#[verifier::external_type_specification]
#[verifier::external_body]
pub struct ExValue(serde_json::Value);

#[verifier::external_type_specification]
#[verifier::external_body]
pub struct ExJsonPath(serde_json_path::JsonPath);

/// The syntax used for colouring.
pub const SYNTAX_NAME: &'static str = "JSON";

/// The colour theme used for colouring.
pub const THEME_NAME: &'static str = "base16-ocean.dark";

/// Why a document cannot be shown.
#[derive(Debug)]
pub enum JsonError {
    /// The text is not JSON; the parser's message.
    Parse(String),
    /// The path expression is not valid; the parser's message.
    Path(String),
    /// The colouring syntax or theme is missing, or colouring failed.
    Highlight,
}

/// Whether serde_json parses a text as a document.
pub uninterp spec fn json_accepts(s: Seq<char>) -> bool;

/// Whether serde_json_path parses a text as a path expression.
pub uninterp spec fn path_accepts(s: Seq<char>) -> bool;

/// The document that serde_json parses from a text.
pub uninterp spec fn document_of(s: Seq<char>) -> serde_json::Value;

/// The path expression that serde_json_path parses from a text.
pub uninterp spec fn path_of(s: Seq<char>) -> serde_json_path::JsonPath;

/// The array of the nodes that a path selects in a document, in order.
pub uninterp spec fn query_of(p: serde_json_path::JsonPath, v: serde_json::Value) -> serde_json::Value;

/// The compact text of a document: one line, no whitespace outside strings.
pub uninterp spec fn compact_of(v: serde_json::Value) -> Seq<char>;

/// The indented text of a document, over several lines.
pub uninterp spec fn pretty_of(v: serde_json::Value) -> Seq<char>;

/// What syntect makes of a text with the named syntax and theme, as
/// 24-bit terminal escapes; `None` where either is missing.
pub uninterp spec fn highlighted_of(
    syntax: Seq<char>,
    theme: Seq<char>,
    text: Seq<char>,
) -> Option<Seq<char>>;

/// Relies on `serde_json::from_str`: it succeeds or fails by the text alone.
#[verifier::external_body]
fn parse_document(s: &str) -> (r: Result<Value, String>)
    ensures
        r is Ok <==> json_accepts(s@),
        r is Ok ==> r->Ok_0 == document_of(s@),
{
    serde_json::from_str::<Value>(s).map_err(|e| e.to_string())
}

/// Relies on `JsonPath::parse`: it succeeds or fails by the text alone.
#[verifier::external_body]
fn parse_path(s: &str) -> (r: Result<JsonPath, String>)
    ensures
        r is Ok <==> path_accepts(s@),
        r is Ok ==> r->Ok_0 == path_of(s@),
{
    JsonPath::parse(s).map_err(|e| e.to_string())
}

/// Relies on `JsonPath::query` and `NodeList::all`: the matched nodes, in
/// order, as an array; the result depends on the path and the document alone.
#[verifier::external_body]
fn query_nodes(p: &JsonPath, v: &Value) -> (r: Value)
    ensures
        r == query_of(*p, *v),
{
    Value::Array(p.query(v).all().into_iter().cloned().collect())
}

/// Relies on `serde_json::to_string`: one line, no extra whitespace. It
/// cannot fail on a `Value`, whose map keys are strings.
#[verifier::external_body]
fn compact_text(v: &Value) -> (r: Option<String>)
    ensures
        r is Some,
        r is Some ==> r->Some_0@ == compact_of(*v),
{
    serde_json::to_string(v).ok()
}

/// Relies on `serde_json::to_string_pretty`: indented over several lines.
/// It cannot fail on a `Value`, whose map keys are strings.
#[verifier::external_body]
fn pretty_text(v: &Value) -> (r: Option<String>)
    ensures
        r is Some,
        r is Some ==> r->Some_0@ == pretty_of(*v),
{
    serde_json::to_string_pretty(v).ok()
}

/// Relies on syntect's bundled syntaxes and themes, `HighlightLines` and
/// `as_24_bit_terminal_escaped`: the result depends on the three texts alone.
#[verifier::external_body]
fn highlight(syntax: &str, theme: &str, text: &str) -> (r: Option<String>)
    ensures
        r is Some <==> highlighted_of(syntax@, theme@, text@) is Some,
        r is Some ==> highlighted_of(syntax@, theme@, text@) == Some(r->Some_0@),
{
    let ps = SyntaxSet::load_defaults_newlines();
    let ts = ThemeSet::load_defaults();
    let mut h = HighlightLines::new(ps.find_syntax_by_name(syntax)?, ts.themes.get(theme)?);
    let mut out = String::new();
    for line in LinesWithEndings::from(text) {
        let ranges = h.highlight_line(line, &ps).ok()?;
        out.push_str(&as_24_bit_terminal_escaped(&ranges[..], true));
    }
    Some(out)
}

/// Colours a JSON text for the terminal.
pub fn highlight_json(text: &str) -> (r: Result<String, JsonError>)
    ensures
        match highlighted_of(SYNTAX_NAME@, THEME_NAME@, text@) {
            Some(h) => r is Ok && r->Ok_0@ == h,
            None => r matches Err(JsonError::Highlight),
        },
{
    match highlight(SYNTAX_NAME, THEME_NAME, text) {
        Some(h) => Ok(h),
        None => Err(JsonError::Highlight),
    }
}

/// A parsed document, an optional path query, and whether to write it
/// compactly.
pub struct JsonCommand {
    pub data: Value,
    pub path: Option<JsonPath>,
    pub compress: bool,
}

impl JsonCommand {
    /// Parses the document and the path expression.
    pub fn new(data: &str, path: Option<&str>, compress: bool) -> (r: Result<
        JsonCommand,
        JsonError,
    >)
        ensures
            !json_accepts(data@) <==> r matches Err(JsonError::Parse(_)),
            json_accepts(data@) ==> (r matches Err(JsonError::Path(_)) <==> path is Some
                && !path_accepts(path->Some_0@)),
            r is Err ==> r->Err_0 is Parse || r->Err_0 is Path,
            r is Ok ==> r->Ok_0.compress == compress && r->Ok_0.data == document_of(data@) && match path {
                Some(p) => r->Ok_0.path == Some(path_of(p@)),
                None => r->Ok_0.path is None,
            },
    {
        let doc = match parse_document(data) {
            Ok(v) => v,
            Err(msg) => return Err(JsonError::Parse(msg)),
        };
        let query = match path {
            Some(p) => match parse_path(p) {
                Ok(q) => Some(q),
                Err(msg) => return Err(JsonError::Path(msg)),
            },
            None => None,
        };
        Ok(JsonCommand { data: doc, path: query, compress })
    }

    /// The value shown: the document, or the array of the nodes that the
    /// path selects in it.
    pub open spec fn selected(&self) -> serde_json::Value {
        match self.path {
            Some(p) => query_of(p, self.data),
            None => self.data,
        }
    }

    /// The text shown before colouring: compact or indented.
    pub open spec fn rendered(&self) -> Seq<char> {
        if self.compress {
            compact_of(self.selected())
        } else {
            pretty_of(self.selected())
        }
    }

    /// The text of the document, or of the array of nodes that the path
    /// matches: on one line when compressing, indented otherwise.
    pub fn render(&self) -> (r: String)
        ensures
            r@ == self.rendered(),
    {
        let text = match &self.path {
            Some(p) => {
                let nodes = query_nodes(p, &self.data);
                if self.compress {
                    compact_text(&nodes)
                } else {
                    pretty_text(&nodes)
                }
            },
            None => if self.compress {
                compact_text(&self.data)
            } else {
                pretty_text(&self.data)
            },
        };
        match text {
            Some(t) => t,
            None => String::new(),
        }
    }

    /// The rendered text, coloured for the terminal.
    pub fn output(&self) -> (r: Result<String, JsonError>)
        ensures
            match highlighted_of(SYNTAX_NAME@, THEME_NAME@, self.rendered()) {
                Some(h) => r is Ok && r->Ok_0@ == h,
                None => r matches Err(JsonError::Highlight),
            },
    {
        let text = self.render();
        highlight_json(text.as_str())
    }
}

} // verus!
