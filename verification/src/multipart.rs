//! Evaluation of the parameters of a multipart form.
use vstd::prelude::*;
use crate::ast::{FileParam, FileValue, KeyValue, MultipartParam};
use crate::error::{Error, ErrorView, result_view};
use crate::files::{FileStore, read_bytes, read_file};
use crate::http;
use crate::http::{FileParamView, MultipartParamView, PairView};
use crate::path::{extension, file_extension};
use crate::template::eval_template;
use crate::text::same_text;
use crate::value::{Value, Variables};

verus! {

/// The media type of a file with extension `ext`; a file with no known
/// extension is `application/octet-stream`.
pub open spec fn media_type(ext: Option<Seq<char>>) -> Seq<char> {
    match ext {
        Some(e) => if e == "gif"@ {
            "image/gif"@
        } else if e == "jpg"@ {
            "image/jpeg"@
        } else if e == "jpeg"@ {
            "image/jpeg"@
        } else if e == "png"@ {
            "image/png"@
        } else if e == "svg"@ {
            "image/svg+xml"@
        } else if e == "txt"@ {
            "text/plain"@
        } else if e == "htm"@ {
            "text/html"@
        } else if e == "html"@ {
            "text/html"@
        } else if e == "pdf"@ {
            "application/pdf"@
        } else if e == "xml"@ {
            "application/xml"@
        } else {
            "application/octet-stream"@
        },
        None => "application/octet-stream"@,
    }
}

/// The content type of a file value: the one written, else the one its
/// file name's extension implies.
pub open spec fn file_content_type(v: FileValue) -> Seq<char> {
    match v.content_type {
        Some(c) => c@,
        None => media_type(file_extension(v.filename.value@)),
    }
}

fn media_type_of(ext: &str) -> (r: String)
    ensures
        r@ == media_type(Some(ext@)),
{
    if same_text(ext, "gif") {
        "image/gif".to_string()
    } else if same_text(ext, "jpg") {
        "image/jpeg".to_string()
    } else if same_text(ext, "jpeg") {
        "image/jpeg".to_string()
    } else if same_text(ext, "png") {
        "image/png".to_string()
    } else if same_text(ext, "svg") {
        "image/svg+xml".to_string()
    } else if same_text(ext, "txt") {
        "text/plain".to_string()
    } else if same_text(ext, "htm") {
        "text/html".to_string()
    } else if same_text(ext, "html") {
        "text/html".to_string()
    } else if same_text(ext, "pdf") {
        "application/pdf".to_string()
    } else if same_text(ext, "xml") {
        "application/xml".to_string()
    } else {
        "application/octet-stream".to_string()
    }
}

impl FileValue {
    /// The content type to send this file with: the one written, else the
    /// one its extension implies.
    pub fn content_type(&self) -> (r: String)
        ensures
            r@ == file_content_type(*self),
            self.content_type matches Some(c) ==> r@ == c@,
    {
        match &self.content_type {
            Some(c) => c.clone(),
            None => match extension(self.filename.value.as_str()) {
                Some(e) => media_type_of(e.as_str()),
                None => "application/octet-stream".to_string(),
            },
        }
    }
}

/// A file parameter evaluated relative to `dir`: its key, the file name as
/// written, the file's bytes and its content type.
pub open spec fn eval_file_param(
    p: FileParam,
    dir: Seq<char>,
    files: Map<Seq<char>, crate::files::FileRead>,
) -> Result<FileParamView, ErrorView> {
    match read_file(files, dir, p.value.filename.value@, p.value.filename.source_info) {
        Err(e) => Err(e),
        Ok(data) => Ok(
            FileParamView {
                name: p.key.value@,
                filename: p.value.filename.value@,
                data,
                content_type: file_content_type(p.value),
            },
        ),
    }
}

/// A key-value pair evaluated: its key, with the text of its template.
pub open spec fn eval_key_value(kv: KeyValue, vars: Map<Seq<char>, Value>) -> Result<
    PairView,
    ErrorView,
> {
    match eval_template(kv.value@, vars) {
        Ok(v) => Ok(PairView { name: kv.key.value@, value: v }),
        Err(e) => Err(e),
    }
}

/// A multipart parameter evaluated.
pub open spec fn eval_multipart_param(
    p: MultipartParam,
    vars: Map<Seq<char>, Value>,
    dir: Seq<char>,
    files: Map<Seq<char>, crate::files::FileRead>,
) -> Result<MultipartParamView, ErrorView> {
    match p {
        MultipartParam::Param(kv) => match eval_key_value(kv, vars) {
            Ok(v) => Ok(MultipartParamView::Param(v)),
            Err(e) => Err(e),
        },
        MultipartParam::FileParam(f) => match eval_file_param(f, dir, files) {
            Ok(v) => Ok(MultipartParamView::FileParam(v)),
            Err(e) => Err(e),
        },
    }
}

/// A key-value pair evaluated into a parameter.
pub fn eval_param(kv: &KeyValue, variables: &Variables) -> (r: Result<http::Param, Error>)
    ensures
        result_view(r) == eval_key_value(*kv, variables@),
{
    match kv.value.eval(variables) {
        Ok(value) => Ok(http::Param { name: kv.key.value.clone(), value }),
        Err(e) => Err(e),
    }
}

/// A file parameter evaluated, read by reference.
pub(crate) fn eval_file_param_ref(p: &FileParam, context_dir: &str, files: &FileStore) -> (r:
    Result<http::FileParam, Error>)
    ensures
        result_view(r) == eval_file_param(*p, context_dir@, files@),
        r matches Ok(v) ==> {
            &&& v.name@ == p.key.value@
            &&& v.filename@ == p.value.filename.value@
            &&& (p.value.content_type matches Some(c) ==> v.content_type@ == c@)
        },
{
    let data = match read_bytes(files, context_dir, &p.value.filename) {
        Ok(d) => d,
        Err(e) => {
            return Err(e);
        },
    };
    let content_type = p.value.content_type();
    Ok(
        http::FileParam {
            name: p.key.value.clone(),
            filename: p.value.filename.value.clone(),
            data,
            content_type,
        },
    )
}

/// A multipart parameter evaluated, read by reference.
pub(crate) fn eval_multipart_ref(
    p: &MultipartParam,
    variables: &Variables,
    context_dir: &str,
    files: &FileStore,
) -> (r: Result<http::MultipartParam, Error>)
    ensures
        result_view(r) == eval_multipart_param(*p, variables@, context_dir@, files@),
{
    match p {
        MultipartParam::Param(kv) => match eval_param(kv, variables) {
            Ok(v) => Ok(http::MultipartParam::Param(v)),
            Err(e) => Err(e),
        },
        MultipartParam::FileParam(f) => match eval_file_param_ref(f, context_dir, files) {
            Ok(v) => Ok(http::MultipartParam::FileParam(v)),
            Err(e) => Err(e),
        },
    }
}

impl FileParam {
    /// This file parameter with the file's bytes, read from `files` at the
    /// path the file name gives relative to `context_dir`.
    pub fn eval(self, context_dir: String, files: &FileStore) -> (r: Result<
        http::FileParam,
        Error,
    >)
        ensures
            result_view(r) == eval_file_param(self, context_dir@, files@),
            r matches Ok(v) ==> {
                &&& v.name@ == self.key.value@
                &&& v.filename@ == self.value.filename.value@
                &&& (self.value.content_type matches Some(c) ==> v.content_type@ == c@)
            },
    {
        eval_file_param_ref(&self, context_dir.as_str(), files)
    }
}

impl MultipartParam {
    /// This parameter evaluated: a plain parameter gets the text of its
    /// template, a file parameter the bytes of its file.
    pub fn eval(self, variables: &Variables, context_dir: String, files: &FileStore) -> (r:
        Result<http::MultipartParam, Error>)
        ensures
            result_view(r) == eval_multipart_param(self, variables@, context_dir@, files@),
    {
        eval_multipart_ref(&self, variables, context_dir.as_str(), files)
    }
}

/// Evaluation of one key-value pair under `vars`, as a function.
pub open spec fn pair_fn(vars: Map<Seq<char>, Value>) -> spec_fn(KeyValue) -> Result<
    PairView,
    ErrorView,
> {
    |kv: KeyValue| eval_key_value(kv, vars)
}

/// Evaluation of one multipart parameter, as a function.
pub open spec fn multipart_fn(
    vars: Map<Seq<char>, Value>,
    dir: Seq<char>,
    files: Map<Seq<char>, crate::files::FileRead>,
) -> spec_fn(MultipartParam) -> Result<MultipartParamView, ErrorView> {
    |p: MultipartParam| eval_multipart_param(p, vars, dir, files)
}

} // verus!
