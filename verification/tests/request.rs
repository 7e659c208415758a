use hurl::ast::{
    Comment, EncodedString, Expr, KeyValue, LineTerminator, Method, Request, Section,
    SectionValue, SourceInfo, Template, TemplateElement, Variable, Whitespace,
};
use hurl::error::RunnerError;
use hurl::files::FileStore;
use hurl::http;
use hurl::value::{Value, Variables};

pub fn whitespace() -> Whitespace {
    Whitespace {
        value: String::from(" "),
        source_info: SourceInfo::init(0, 0, 0, 0),
    }
}

pub fn hello_request() -> Request {
    let line_terminator = LineTerminator {
        space0: whitespace(),
        comment: None,
        newline: whitespace(),
    };
    Request {
        line_terminators: vec![],
        space0: whitespace(),
        method: Method::Get,
        space1: whitespace(),
        url: Template {
            elements: vec![
                TemplateElement::Expression(Expr {
                    space0: whitespace(),
                    variable: Variable {
                        name: String::from("base_url"),
                        source_info: SourceInfo::init(1, 7, 1, 15),
                    },
                    space1: whitespace(),
                }),
                TemplateElement::String {
                    value: String::from("/hello"),
                    encoded: String::from("/hello"),
                },
            ],
            quotes: false,
            source_info: SourceInfo::init(0, 0, 0, 0),
        },
        line_terminator0: line_terminator.clone(),
        headers: vec![],
        sections: vec![],
        body: None,
        source_info: SourceInfo::init(0, 0, 0, 0),
    }
}

pub fn simple_key_value(key: EncodedString, value: Template) -> KeyValue {
    let line_terminator = LineTerminator {
        space0: whitespace(),
        comment: None,
        newline: whitespace(),
    };
    KeyValue {
        line_terminators: vec![],
        space0: whitespace(),
        key,
        space1: whitespace(),
        space2: whitespace(),
        value,
        line_terminator0: line_terminator,
    }
}

pub fn query_request() -> Request {
    let line_terminator = LineTerminator {
        space0: whitespace(),
        comment: None,
        newline: whitespace(),
    };
    Request {
        line_terminators: vec![],
        space0: whitespace(),
        method: Method::Get,
        space1: whitespace(),
        url: Template {
            elements: vec![TemplateElement::String {
                value: String::from("http://localhost:8000/querystring-params"),
                encoded: String::from("http://localhost:8000/querystring-params"),
            }],
            quotes: false,
            source_info: SourceInfo::init(0, 0, 0, 0),
        },
        line_terminator0: line_terminator.clone(),
        headers: vec![],
        sections: vec![Section {
            line_terminators: vec![],
            space0: whitespace(),
            line_terminator0: line_terminator,
            value: SectionValue::QueryParams(vec![
                simple_key_value(
                    EncodedString {
                        quotes: false,
                        value: "param1".to_string(),
                        encoded: "param1".to_string(),
                        source_info: SourceInfo::init(0, 0, 0, 0),
                    },
                    Template {
                        quotes: false,
                        elements: vec![TemplateElement::Expression(Expr {
                            space0: whitespace(),
                            variable: Variable {
                                name: String::from("param1"),
                                source_info: SourceInfo::init(1, 7, 1, 15),
                            },
                            space1: whitespace(),
                        })],
                        source_info: SourceInfo::init(0, 0, 0, 0),
                    },
                ),
                simple_key_value(
                    EncodedString {
                        quotes: false,
                        value: "param2".to_string(),
                        encoded: "param2".to_string(),
                        source_info: SourceInfo::init(0, 0, 0, 0),
                    },
                    Template {
                        quotes: false,
                        elements: vec![TemplateElement::String {
                            value: "a b".to_string(),
                            encoded: "a b".to_string(),
                        }],
                        source_info: SourceInfo::init(0, 0, 0, 0),
                    },
                ),
            ]),
            source_info: SourceInfo::init(0, 0, 0, 0),
        }],
        body: None,
        source_info: SourceInfo::init(0, 0, 0, 0),
    }
}

fn hello_http_request() -> http::Request {
    http::Request {
        method: http::Method::Get,
        url: "http://localhost:8000/hello".to_string(),
        querystring: vec![],
        headers: vec![],
        cookies: vec![],
        body: vec![],
        multipart: vec![],
        form: vec![],
        content_type: None,
    }
}

fn query_http_request() -> http::Request {
    http::Request {
        method: http::Method::Get,
        url: "http://localhost:8000/querystring-params".to_string(),
        querystring: vec![
            http::Param {
                name: String::from("param1"),
                value: String::from("value1"),
            },
            http::Param {
                name: String::from("param2"),
                value: String::from("a b"),
            },
        ],
        headers: vec![],
        cookies: vec![],
        body: vec![],
        multipart: vec![],
        form: vec![],
        content_type: None,
    }
}

#[test]
pub fn test_error_variable() {
    let variables = Variables::new();
    let error = hello_request()
        .eval(&variables, "current_dir".to_string(), &FileStore::new())
        .err()
        .unwrap();
    assert_eq!(error.source_info, SourceInfo::init(1, 7, 1, 15));
    assert_eq!(
        error.inner,
        RunnerError::TemplateVariableNotDefined {
            name: String::from("base_url")
        }
    );
}

#[test]
pub fn test_hello_request() {
    let mut variables = Variables::new();
    variables.insert(
        String::from("base_url"),
        Value::String(String::from("http://localhost:8000")),
    );
    let http_request = hello_request()
        .eval(&variables, "current_dir".to_string(), &FileStore::new())
        .unwrap();
    assert_eq!(http_request, hello_http_request());
}

#[test]
pub fn test_query_request() {
    let mut variables = Variables::new();
    variables.insert(
        String::from("param1"),
        Value::String(String::from("value1")),
    );
    let http_request = query_request()
        .eval(&variables, "current_dir".to_string(), &FileStore::new())
        .unwrap();
    assert_eq!(http_request, query_http_request());
}

#[test]
fn clear_cookie_store() {
    assert_eq!(false, hello_request().clear_cookie_storage());

    let line_terminator = LineTerminator {
        space0: whitespace(),
        comment: None,
        newline: whitespace(),
    };
    assert_eq!(
        true,
        Request {
            line_terminators: vec![LineTerminator {
                space0: whitespace(),
                comment: Some(Comment {
                    value: "@cookie_storage_clear".to_string()
                }),
                newline: whitespace(),
            }],
            space0: whitespace(),
            method: Method::Get,
            space1: whitespace(),
            url: Template {
                elements: vec![TemplateElement::String {
                    value: String::from("http:///localhost"),
                    encoded: String::from("http://localhost"),
                },],
                quotes: false,
                source_info: SourceInfo::init(0, 0, 0, 0),
            },
            line_terminator0: line_terminator,
            headers: vec![],
            sections: vec![],
            body: None,
            source_info: SourceInfo::init(0, 0, 0, 0),
        }
        .clear_cookie_storage()
    );
}

#[test]
fn add_cookie_in_storage() {
    assert_eq!(None, hello_request().add_cookie_in_storage());

    let line_terminator = LineTerminator {
        space0: whitespace(),
        comment: None,
        newline: whitespace(),
    };
    assert_eq!(
        Some("localhost\tFALSE\t/\tFALSE\t0\tcookie1\tvalueA".to_string()),
        Request {
            line_terminators: vec![LineTerminator {
                space0: whitespace(),
                comment: Some(Comment {
                    value:
                        "@cookie_storage_set: localhost\tFALSE\t/\tFALSE\t0\tcookie1\tvalueA"
                            .to_string()
                }),
                newline: whitespace(),
            }],
            space0: whitespace(),
            method: Method::Get,
            space1: whitespace(),
            url: Template {
                elements: vec![TemplateElement::String {
                    value: String::from("http:///localhost"),
                    encoded: String::from("http://localhost"),
                },],
                quotes: false,
                source_info: SourceInfo::init(0, 0, 0, 0),
            },
            line_terminator0: line_terminator,
            headers: vec![],
            sections: vec![],
            body: None,
            source_info: SourceInfo::init(0, 0, 0, 0),
        }
        .add_cookie_in_storage()
    );
}
