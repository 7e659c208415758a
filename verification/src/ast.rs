//! The parsed form of a request entry, as the parser hands it over.
use vstd::prelude::*;

verus! {

/// A position in the source text.
#[derive(Clone, Copy, Debug, PartialEq, Eq)]
pub struct Pos {
    pub line: usize,
    pub column: usize,
}

/// The span of source text a node was parsed from.
#[derive(Clone, Copy, Debug, PartialEq, Eq)]
pub struct SourceInfo {
    pub start: Pos,
    pub end: Pos,
}

impl SourceInfo {
    /// The span from `start_line:start_column` to `end_line:end_column`.
    pub fn init(start_line: usize, start_column: usize, end_line: usize, end_column: usize) -> (r:
        SourceInfo)
        ensures
            r == (SourceInfo {
                start: Pos { line: start_line, column: start_column },
                end: Pos { line: end_line, column: end_column },
            }),
    {
        SourceInfo {
            start: Pos { line: start_line, column: start_column },
            end: Pos { line: end_line, column: end_column },
        }
    }
}

#[derive(Clone, Debug, PartialEq, Eq)]
pub struct Whitespace {
    pub value: String,
    pub source_info: SourceInfo,
}

#[derive(Clone, Debug, PartialEq, Eq)]
pub struct Comment {
    pub value: String,
}

#[derive(Clone, Debug, PartialEq, Eq)]
pub struct LineTerminator {
    pub space0: Whitespace,
    pub comment: Option<Comment>,
    pub newline: Whitespace,
}

#[derive(Clone, Debug, PartialEq, Eq)]
pub struct Variable {
    pub name: String,
    pub source_info: SourceInfo,
}

#[derive(Clone, Debug, PartialEq, Eq)]
pub struct Expr {
    pub space0: Whitespace,
    pub variable: Variable,
    pub space1: Whitespace,
}

#[derive(Clone, Debug, PartialEq, Eq)]
pub enum TemplateElement {
    String { value: String, encoded: String },
    Expression(Expr),
}

/// Text in which `{{name}}` expressions stand for the values of variables.
#[derive(Clone, Debug, PartialEq, Eq)]
pub struct Template {
    pub quotes: bool,
    pub elements: Vec<TemplateElement>,
    pub source_info: SourceInfo,
}

#[derive(Clone, Debug, PartialEq, Eq)]
pub struct EncodedString {
    pub value: String,
    pub encoded: String,
    pub quotes: bool,
    pub source_info: SourceInfo,
}

#[derive(Clone, Debug, PartialEq, Eq)]
pub struct KeyValue {
    pub line_terminators: Vec<LineTerminator>,
    pub space0: Whitespace,
    pub key: EncodedString,
    pub space1: Whitespace,
    pub space2: Whitespace,
    pub value: Template,
    pub line_terminator0: LineTerminator,
}

#[derive(Clone, Copy, Debug, PartialEq, Eq)]
pub enum Method {
    Get,
    Head,
    Post,
    Put,
    Delete,
    Connect,
    Options,
    Trace,
    Patch,
}

#[derive(Clone, Debug, PartialEq, Eq)]
pub struct Filename {
    pub value: String,
    pub source_info: SourceInfo,
}

#[derive(Clone, Debug, PartialEq, Eq)]
pub struct FileValue {
    pub space0: Whitespace,
    pub filename: Filename,
    pub space1: Whitespace,
    pub space2: Whitespace,
    pub content_type: Option<String>,
}

#[derive(Clone, Debug, PartialEq, Eq)]
pub struct FileParam {
    pub line_terminators: Vec<LineTerminator>,
    pub space0: Whitespace,
    pub key: EncodedString,
    pub space1: Whitespace,
    pub space2: Whitespace,
    pub value: FileValue,
    pub line_terminator0: LineTerminator,
}

#[derive(Clone, Debug, PartialEq, Eq)]
pub enum MultipartParam {
    Param(KeyValue),
    FileParam(FileParam),
}

#[derive(Clone, Debug, PartialEq, Eq)]
pub struct CookieName {
    pub value: String,
    pub encoded: String,
}

#[derive(Clone, Debug, PartialEq, Eq)]
pub struct CookieValue {
    pub value: String,
    pub encoded: String,
}

#[derive(Clone, Debug, PartialEq, Eq)]
pub struct Cookie {
    pub line_terminators: Vec<LineTerminator>,
    pub space0: Whitespace,
    pub name: CookieName,
    pub space1: Whitespace,
    pub space2: Whitespace,
    pub value: CookieValue,
    pub line_terminator0: LineTerminator,
}

#[derive(Clone, Debug, PartialEq, Eq)]
pub enum SectionValue {
    QueryParams(Vec<KeyValue>),
    FormParams(Vec<KeyValue>),
    MultipartFormData(Vec<MultipartParam>),
    Cookies(Vec<Cookie>),
}

#[derive(Clone, Debug, PartialEq, Eq)]
pub struct Section {
    pub line_terminators: Vec<LineTerminator>,
    pub space0: Whitespace,
    pub line_terminator0: LineTerminator,
    pub value: SectionValue,
    pub source_info: SourceInfo,
}

/// The payload of a body: JSON text, XML text, a raw string, bytes given
/// in base64, or the contents of a file.
#[derive(Clone, Debug, PartialEq, Eq)]
pub enum Bytes {
    Json { value: Template },
    Xml { value: String },
    RawString { newline0: Whitespace, value: Template },
    Base64 { space0: Whitespace, value: Vec<u8>, encoded: String, space1: Whitespace },
    File { space0: Whitespace, filename: Filename, space1: Whitespace },
}

#[derive(Clone, Debug, PartialEq, Eq)]
pub struct Body {
    pub line_terminators: Vec<LineTerminator>,
    pub space0: Whitespace,
    pub value: Bytes,
    pub line_terminator0: LineTerminator,
}

/// A request entry: method, URL, headers, sections and body, with the
/// comment lines that precede it.
#[derive(Clone, Debug, PartialEq, Eq)]
pub struct Request {
    pub line_terminators: Vec<LineTerminator>,
    pub space0: Whitespace,
    pub method: Method,
    pub space1: Whitespace,
    pub url: Template,
    pub line_terminator0: LineTerminator,
    pub headers: Vec<KeyValue>,
    pub sections: Vec<Section>,
    pub body: Option<Body>,
    pub source_info: SourceInfo,
}

/// A template element as a value: its text, or the variable it names.
pub enum ElementView {
    Text { value: Seq<char>, encoded: Seq<char> },
    Expression {
        space0: Seq<char>,
        space0_info: SourceInfo,
        name: Seq<char>,
        source_info: SourceInfo,
        space1: Seq<char>,
        space1_info: SourceInfo,
    },
}

pub struct TemplateView {
    pub quotes: bool,
    pub elements: Seq<ElementView>,
    pub source_info: SourceInfo,
}

impl View for TemplateElement {
    type V = ElementView;

    open spec fn view(&self) -> ElementView {
        match self {
            TemplateElement::String { value, encoded } => ElementView::Text {
                value: value@,
                encoded: encoded@,
            },
            TemplateElement::Expression(e) => ElementView::Expression {
                space0: e.space0.value@,
                space0_info: e.space0.source_info,
                name: e.variable.name@,
                source_info: e.variable.source_info,
                space1: e.space1.value@,
                space1_info: e.space1.source_info,
            },
        }
    }
}

impl View for Template {
    type V = TemplateView;

    open spec fn view(&self) -> TemplateView {
        TemplateView {
            quotes: self.quotes,
            elements: self.elements@.map_values(|e: TemplateElement| e@),
            source_info: self.source_info,
        }
    }
}

fn copy_whitespace(w: &Whitespace) -> (r: Whitespace)
    ensures
        r.value@ == w.value@,
        r.source_info == w.source_info,
{
    Whitespace { value: w.value.clone(), source_info: w.source_info }
}

fn copy_element(e: &TemplateElement) -> (r: TemplateElement)
    ensures
        r@ == e@,
{
    match e {
        TemplateElement::String { value, encoded } => TemplateElement::String {
            value: value.clone(),
            encoded: encoded.clone(),
        },
        TemplateElement::Expression(x) => TemplateElement::Expression(
            Expr {
                space0: copy_whitespace(&x.space0),
                variable: Variable {
                    name: x.variable.name.clone(),
                    source_info: x.variable.source_info,
                },
                space1: copy_whitespace(&x.space1),
            },
        ),
    }
}

impl Template {
    /// A copy of this template.
    pub fn copy(&self) -> (r: Template)
        ensures
            r@ == self@,
    {
        let mut elements: Vec<TemplateElement> = Vec::new();
        let mut i: usize = 0;
        while i < self.elements.len()
            invariant
                i <= self.elements@.len(),
                elements@.len() == i,
                forall|k: int| 0 <= k < i ==> #[trigger] elements@[k]@ == self.elements@[k]@,
            decreases self.elements@.len() - i,
        {
            let e = copy_element(&self.elements[i]);
            elements.push(e);
            i = i + 1;
        }
        assert(elements@.map_values(|e: TemplateElement| e@) =~= self.elements@.map_values(
            |e: TemplateElement| e@,
        ));
        Template { quotes: self.quotes, elements, source_info: self.source_info }
    }
}

} // verus!
