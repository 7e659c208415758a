use hurl::ast::{
    Body, Bytes, Comment, Cookie, CookieName, CookieValue, EncodedString, Expr, FileParam,
    FileValue, Filename, KeyValue, LineTerminator, Method, MultipartParam, Request, Section,
    SectionValue, SourceInfo, Template, TemplateElement, Variable, Whitespace,
};
use hurl::error::{Error, RunnerError};
use hurl::files::{FileRead, FileStore};
use hurl::http;
use hurl::request::content_type_position;
use hurl::value::{Value, Variables};

fn ws() -> Whitespace {
    Whitespace {
        value: " ".to_string(),
        source_info: SourceInfo::init(0, 0, 0, 0),
    }
}

fn lt(comment: Option<&str>) -> LineTerminator {
    LineTerminator {
        space0: ws(),
        comment: comment.map(|c| Comment {
            value: c.to_string(),
        }),
        newline: ws(),
    }
}

fn text(s: &str) -> Template {
    Template {
        quotes: false,
        elements: vec![TemplateElement::String {
            value: s.to_string(),
            encoded: s.to_string(),
        }],
        source_info: SourceInfo::init(0, 0, 0, 0),
    }
}

fn var(name: &str, line: usize) -> Template {
    Template {
        quotes: false,
        elements: vec![TemplateElement::Expression(Expr {
            space0: ws(),
            variable: Variable {
                name: name.to_string(),
                source_info: SourceInfo::init(line, 1, line, 9),
            },
            space1: ws(),
        })],
        source_info: SourceInfo::init(0, 0, 0, 0),
    }
}

fn kv(key: &str, value: Template) -> KeyValue {
    KeyValue {
        line_terminators: vec![],
        space0: ws(),
        key: EncodedString {
            value: key.to_string(),
            encoded: key.to_string(),
            quotes: false,
            source_info: SourceInfo::init(0, 0, 0, 0),
        },
        space1: ws(),
        space2: ws(),
        value,
        line_terminator0: lt(None),
    }
}

fn section(value: SectionValue) -> Section {
    Section {
        line_terminators: vec![],
        space0: ws(),
        line_terminator0: lt(None),
        value,
        source_info: SourceInfo::init(0, 0, 0, 0),
    }
}

fn body(value: Bytes) -> Option<Body> {
    Some(Body {
        line_terminators: vec![],
        space0: ws(),
        value,
        line_terminator0: lt(None),
    })
}

fn filename(name: &str) -> Filename {
    Filename {
        value: name.to_string(),
        source_info: SourceInfo::init(4, 2, 4, 10),
    }
}

fn file_param(key: &str, name: &str) -> MultipartParam {
    MultipartParam::FileParam(FileParam {
        line_terminators: vec![],
        space0: ws(),
        key: EncodedString {
            value: key.to_string(),
            encoded: key.to_string(),
            quotes: false,
            source_info: SourceInfo::init(0, 0, 0, 0),
        },
        space1: ws(),
        space2: ws(),
        value: FileValue {
            space0: ws(),
            filename: filename(name),
            space1: ws(),
            space2: ws(),
            content_type: None,
        },
        line_terminator0: lt(None),
    })
}

fn entry(
    comments: Vec<LineTerminator>,
    method: Method,
    url: Template,
    headers: Vec<KeyValue>,
    sections: Vec<Section>,
    body: Option<Body>,
) -> Request {
    Request {
        line_terminators: comments,
        space0: ws(),
        method,
        space1: ws(),
        url,
        line_terminator0: lt(None),
        headers,
        sections,
        body,
        source_info: SourceInfo::init(0, 0, 0, 0),
    }
}

fn simple(sections: Vec<Section>, body: Option<Body>) -> Request {
    entry(vec![], Method::Post, text("http://h/p"), vec![], sections, body)
}

fn no_files() -> FileStore {
    FileStore::new()
}

fn eval(r: Request, vars: &Variables) -> Result<http::Request, Error> {
    r.eval(vars, "ctx".to_string(), &no_files())
}

#[test]
fn every_method_maps_to_its_http_method() {
    let pairs = [
        (Method::Get, http::Method::Get),
        (Method::Head, http::Method::Head),
        (Method::Post, http::Method::Post),
        (Method::Put, http::Method::Put),
        (Method::Delete, http::Method::Delete),
        (Method::Connect, http::Method::Connect),
        (Method::Options, http::Method::Options),
        (Method::Trace, http::Method::Trace),
        (Method::Patch, http::Method::Patch),
    ];
    for (m, h) in pairs.iter() {
        assert_eq!(m.eval(), *h);
        let r = entry(vec![], *m, text("u"), vec![], vec![], None);
        assert_eq!(eval(r, &Variables::new()).unwrap().method, *h);
    }
}

#[test]
fn values_render_as_text() {
    let mut vars = Variables::new();
    vars.insert("a".to_string(), Value::Integer(-42));
    vars.insert("b".to_string(), Value::Integer(0));
    vars.insert("c".to_string(), Value::Integer(i64::MIN));
    vars.insert("d".to_string(), Value::Integer(1234567890));
    vars.insert("e".to_string(), Value::Bool(true));
    vars.insert("f".to_string(), Value::Bool(false));
    vars.insert("g".to_string(), Value::Integer(i64::MAX));
    let cases = [
        ("a", "-42"),
        ("b", "0"),
        ("c", "-9223372036854775808"),
        ("d", "1234567890"),
        ("e", "true"),
        ("f", "false"),
        ("g", "9223372036854775807"),
    ];
    for (name, expected) in cases.iter() {
        assert_eq!(var(name, 1).eval(&vars).unwrap(), expected.to_string());
    }
}

#[test]
fn later_insert_replaces_variable() {
    let mut vars = Variables::new();
    vars.insert("x".to_string(), Value::String("one".to_string()));
    vars.insert("y".to_string(), Value::String("other".to_string()));
    vars.insert("x".to_string(), Value::String("two".to_string()));
    assert_eq!(vars.get("x"), Some(&Value::String("two".to_string())));
    assert_eq!(vars.get("y"), Some(&Value::String("other".to_string())));
    assert_eq!(vars.get("z"), None);
    assert_eq!(var("x", 1).eval(&vars).unwrap(), "two");
}

#[test]
fn template_joins_elements_in_order() {
    let mut vars = Variables::new();
    vars.insert("host".to_string(), Value::String("example.org".to_string()));
    vars.insert("port".to_string(), Value::Integer(8080));
    let t = Template {
        quotes: false,
        elements: vec![
            TemplateElement::String {
                value: "http://".to_string(),
                encoded: "http://".to_string(),
            },
            var("host", 1).elements[0].clone(),
            TemplateElement::String {
                value: ":".to_string(),
                encoded: ":".to_string(),
            },
            var("port", 1).elements[0].clone(),
        ],
        source_info: SourceInfo::init(0, 0, 0, 0),
    };
    assert_eq!(t.eval(&vars).unwrap(), "http://example.org:8080");
}

#[test]
fn first_undefined_variable_is_reported() {
    let t = Template {
        quotes: false,
        elements: vec![var("a", 3).elements[0].clone(), var("b", 5).elements[0].clone()],
        source_info: SourceInfo::init(0, 0, 0, 0),
    };
    let e = t.eval(&Variables::new()).err().unwrap();
    assert_eq!(
        e,
        Error {
            source_info: SourceInfo::init(3, 1, 3, 9),
            inner: RunnerError::TemplateVariableNotDefined {
                name: "a".to_string()
            },
            assert: false,
        }
    );
}

#[test]
fn headers_are_evaluated_in_order() {
    let mut vars = Variables::new();
    vars.insert("token".to_string(), Value::String("abc".to_string()));
    let r = entry(
        vec![],
        Method::Get,
        text("http://h/"),
        vec![kv("Authorization", var("token", 2)), kv("Accept", text("*/*"))],
        vec![],
        None,
    );
    let h = eval(r, &vars).unwrap();
    assert_eq!(
        h.headers,
        vec![
            http::Header {
                name: "Authorization".to_string(),
                value: "abc".to_string()
            },
            http::Header {
                name: "Accept".to_string(),
                value: "*/*".to_string()
            },
        ]
    );
    assert_eq!(h.content_type, None);
}

#[test]
fn header_error_comes_before_query_error() {
    let r = entry(
        vec![],
        Method::Get,
        text("http://h/"),
        vec![kv("H", var("first", 2))],
        vec![section(SectionValue::QueryParams(vec![kv("q", var("second", 3))]))],
        None,
    );
    let e = eval(r, &Variables::new()).err().unwrap();
    assert_eq!(
        e.inner,
        RunnerError::TemplateVariableNotDefined {
            name: "first".to_string()
        }
    );
    assert_eq!(e.source_info, SourceInfo::init(2, 1, 2, 9));
}

#[test]
fn form_implies_urlencoded_content_type() {
    let r = simple(
        vec![
            section(SectionValue::FormParams(vec![kv("a", text("1")), kv("b", text("2"))])),
            section(SectionValue::MultipartFormData(vec![MultipartParam::Param(kv(
                "m",
                text("x"),
            ))])),
        ],
        body(Bytes::Json { value: text("{}") }),
    );
    let h = eval(r, &Variables::new()).unwrap();
    assert_eq!(
        h.form,
        vec![
            http::Param {
                name: "a".to_string(),
                value: "1".to_string()
            },
            http::Param {
                name: "b".to_string(),
                value: "2".to_string()
            },
        ]
    );
    assert_eq!(
        h.content_type,
        Some("application/x-www-form-urlencoded".to_string())
    );
    assert_eq!(h.body, b"{}".to_vec());
}

#[test]
fn multipart_implies_multipart_content_type() {
    let mut files = FileStore::new();
    files.insert("ctx/logo.png".to_string(), FileRead::Content(vec![137, 80]));
    let r = simple(
        vec![section(SectionValue::MultipartFormData(vec![
            MultipartParam::Param(kv("m", text("x"))),
            file_param("logo", "logo.png"),
        ]))],
        body(Bytes::Json { value: text("{}") }),
    );
    let h = r.eval(&Variables::new(), "ctx".to_string(), &files).unwrap();
    assert_eq!(h.content_type, Some("multipart/form-data".to_string()));
    assert_eq!(
        h.multipart,
        vec![
            http::MultipartParam::Param(http::Param {
                name: "m".to_string(),
                value: "x".to_string()
            }),
            http::MultipartParam::FileParam(http::FileParam {
                name: "logo".to_string(),
                filename: "logo.png".to_string(),
                data: vec![137, 80],
                content_type: "image/png".to_string(),
            }),
        ]
    );
}

#[test]
fn json_body_implies_json_content_type() {
    let mut vars = Variables::new();
    vars.insert("n".to_string(), Value::Integer(3));
    let json = Template {
        quotes: false,
        elements: vec![
            TemplateElement::String {
                value: "{\"n\":".to_string(),
                encoded: "{\"n\":".to_string(),
            },
            var("n", 1).elements[0].clone(),
            TemplateElement::String {
                value: "}".to_string(),
                encoded: "}".to_string(),
            },
        ],
        source_info: SourceInfo::init(0, 0, 0, 0),
    };
    let h = eval(simple(vec![], body(Bytes::Json { value: json })), &vars).unwrap();
    assert_eq!(h.body, b"{\"n\":3}".to_vec());
    assert_eq!(h.content_type, Some("application/json".to_string()));
}

#[test]
fn other_bodies_imply_no_content_type() {
    let vars = Variables::new();
    let xml = eval(
        simple(vec![], body(Bytes::Xml { value: "<a>é</a>".to_string() })),
        &vars,
    )
    .unwrap();
    assert_eq!(xml.body, "<a>é</a>".as_bytes().to_vec());
    assert_eq!(xml.content_type, None);
    let raw = eval(
        simple(
            vec![],
            body(Bytes::RawString {
                newline0: ws(),
                value: text("line\n"),
            }),
        ),
        &vars,
    )
    .unwrap();
    assert_eq!(raw.body, b"line\n".to_vec());
    assert_eq!(raw.content_type, None);
    let b64 = eval(
        simple(
            vec![],
            body(Bytes::Base64 {
                space0: ws(),
                value: vec![0, 255, 7],
                encoded: "AP8H".to_string(),
                space1: ws(),
            }),
        ),
        &vars,
    )
    .unwrap();
    assert_eq!(b64.body, vec![0, 255, 7]);
}

#[test]
fn file_body_reads_the_file() {
    let mut files = FileStore::new();
    files.insert("ctx/data.bin".to_string(), FileRead::Content(vec![9, 8, 7]));
    let r = simple(
        vec![],
        body(Bytes::File {
            space0: ws(),
            filename: filename("data.bin"),
            space1: ws(),
        }),
    );
    assert_eq!(
        r.files_to_read("ctx"),
        vec!["ctx/data.bin".to_string()]
    );
    let h = r.eval(&Variables::new(), "ctx".to_string(), &files).unwrap();
    assert_eq!(h.body, vec![9, 8, 7]);
    assert_eq!(h.content_type, None);
}

#[test]
fn missing_body_file_is_an_error() {
    let r = simple(
        vec![],
        body(Bytes::File {
            space0: ws(),
            filename: filename("data.bin"),
            space1: ws(),
        }),
    );
    let e = eval(r, &Variables::new()).err().unwrap();
    assert_eq!(
        e,
        Error {
            source_info: SourceInfo::init(4, 2, 4, 10),
            inner: RunnerError::FileReadAccess {
                value: "ctx/data.bin".to_string()
            },
            assert: false,
        }
    );
}

#[test]
fn first_section_of_each_kind_is_used() {
    let r = simple(
        vec![
            section(SectionValue::Cookies(vec![Cookie {
                line_terminators: vec![],
                space0: ws(),
                name: CookieName {
                    value: "session".to_string(),
                    encoded: "session".to_string(),
                },
                space1: ws(),
                space2: ws(),
                value: CookieValue {
                    value: "s1".to_string(),
                    encoded: "s1".to_string(),
                },
                line_terminator0: lt(None),
            }])),
            section(SectionValue::QueryParams(vec![kv("q", text("first"))])),
            section(SectionValue::QueryParams(vec![kv("q", text("second"))])),
        ],
        None,
    );
    let h = eval(r, &Variables::new()).unwrap();
    assert_eq!(
        h.querystring,
        vec![http::Param {
            name: "q".to_string(),
            value: "first".to_string()
        }]
    );
    assert_eq!(
        h.cookies,
        vec![http::RequestCookie {
            name: "session".to_string(),
            value: "s1".to_string()
        }]
    );
}

#[test]
fn files_to_read_lists_body_then_multipart_files() {
    let r = simple(
        vec![section(SectionValue::MultipartFormData(vec![
            file_param("a", "a.txt"),
            MultipartParam::Param(kv("p", text("v"))),
            file_param("b", "/abs/b.txt"),
        ]))],
        body(Bytes::File {
            space0: ws(),
            filename: filename("body.json"),
            space1: ws(),
        }),
    );
    assert_eq!(
        r.files_to_read("dir/"),
        vec![
            "dir/body.json".to_string(),
            "dir/a.txt".to_string(),
            "/abs/b.txt".to_string()
        ]
    );
    assert_eq!(simple(vec![], None).files_to_read("dir"), Vec::<String>::new());
}

#[test]
fn evaluation_ignores_files_it_does_not_read() {
    let r = simple(
        vec![section(SectionValue::MultipartFormData(vec![file_param("a", "a.txt")]))],
        None,
    );
    let mut f1 = FileStore::new();
    f1.insert("ctx/a.txt".to_string(), FileRead::Content(vec![1]));
    let mut f2 = FileStore::new();
    f2.insert("ctx/a.txt".to_string(), FileRead::Content(vec![1]));
    f2.insert("ctx/unrelated".to_string(), FileRead::Content(vec![2]));
    f2.insert("ctx/b.txt".to_string(), FileRead::Vanished);
    let vars = Variables::new();
    assert_eq!(
        r.clone().eval(&vars, "ctx".to_string(), &f1),
        r.eval(&vars, "ctx".to_string(), &f2)
    );
}

#[test]
fn more_variables_keep_a_successful_evaluation() {
    let r = entry(
        vec![],
        Method::Get,
        var("base", 1),
        vec![kv("X", var("x", 2))],
        vec![],
        None,
    );
    let mut v1 = Variables::new();
    v1.insert("base".to_string(), Value::String("http://h".to_string()));
    v1.insert("x".to_string(), Value::Bool(true));
    let mut v2 = Variables::new();
    v2.insert("base".to_string(), Value::String("http://h".to_string()));
    v2.insert("x".to_string(), Value::Bool(true));
    v2.insert("unused".to_string(), Value::Integer(5));
    let a = eval(r.clone(), &v1).unwrap();
    assert_eq!(eval(r, &v2).unwrap(), a);
}

#[test]
fn content_type_header_in_any_case() {
    let r = entry(
        vec![],
        Method::Get,
        text("u"),
        vec![
            kv("Accept", text("*/*")),
            kv("CONTENT-type", text("text/csv")),
            kv("Content-Type", text("text/plain")),
        ],
        vec![],
        None,
    );
    assert_eq!(r.content_type(), Some(text("text/csv")));
    let none = entry(vec![], Method::Get, text("u"), vec![kv("Accept", text("*/*"))], vec![], None);
    assert_eq!(none.content_type(), None);
}

#[test]
fn content_type_position_finds_first_match() {
    let names = vec![
        "accept".to_string(),
        "content-type".to_string(),
        "content-type".to_string(),
    ];
    assert_eq!(content_type_position(&names), Some(1));
    assert_eq!(content_type_position(&vec!["Content-Type".to_string()]), None);
    assert_eq!(content_type_position(&vec![]), None);
}

#[test]
fn cookie_storage_markers_in_later_comments() {
    let r = entry(
        vec![lt(None), lt(Some("plain comment")), lt(Some("x @cookie_storage_clear y"))],
        Method::Get,
        text("u"),
        vec![],
        vec![],
        None,
    );
    assert!(r.clear_cookie_storage());
    assert_eq!(r.add_cookie_in_storage(), None);
}

#[test]
fn stored_cookie_is_trimmed_text_after_offset() {
    let first = "@cookie_storage_set:   a\tb \u{3000}\n";
    let second = "@cookie_storage_set: other";
    let r = entry(
        vec![lt(Some("unrelated")), lt(Some(first)), lt(Some(second))],
        Method::Get,
        text("u"),
        vec![],
        vec![],
        None,
    );
    assert_eq!(r.add_cookie_in_storage(), Some("a\tb".to_string()));
    assert!(!r.clear_cookie_storage());
    // the offset counts from the start of the comment, wherever the marker is
    let shifted = "0123456789@cookie_storage_set:value";
    let r2 = entry(vec![lt(Some(shifted))], Method::Get, text("u"), vec![], vec![], None);
    assert_eq!(
        r2.add_cookie_in_storage(),
        Some(shifted[21..].trim().to_string())
    );
}
