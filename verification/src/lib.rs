//! Evaluation of parsed HTTP request descriptions into concrete HTTP requests.
//!
//! A request entry (method, URL template, headers, query/form/multipart/cookie
//! sections, body and comment lines) is evaluated against a table of variables
//! and a store of file contents into an HTTP request value.
pub mod text;
pub mod path;
pub mod ast;
pub mod error;
pub mod value;
pub mod http;
pub mod template;
pub mod files;
pub mod multipart;
pub mod seqs;
pub mod request;
pub mod laws;
