//! The evaluated HTTP request, ready to be sent.
use vstd::prelude::*;

verus! {

#[derive(Clone, Copy, Debug, PartialEq, Eq)]
pub enum Method {
    Get,
    Head,
    Post,
    Put,
    Delete,
    Connect,
    Options,
    Trace,
    Patch,
}

#[derive(Clone, Debug, PartialEq, Eq)]
pub struct Param {
    pub name: String,
    pub value: String,
}

#[derive(Clone, Debug, PartialEq, Eq)]
pub struct Header {
    pub name: String,
    pub value: String,
}

#[derive(Clone, Debug, PartialEq, Eq)]
pub struct RequestCookie {
    pub name: String,
    pub value: String,
}

/// A file sent in a multipart form: the field's name, the file's name as
/// written, its bytes and its content type.
#[derive(Clone, Debug, PartialEq, Eq)]
pub struct FileParam {
    pub name: String,
    pub filename: String,
    pub data: Vec<u8>,
    pub content_type: String,
}

#[derive(Clone, Debug, PartialEq, Eq)]
pub enum MultipartParam {
    Param(Param),
    FileParam(FileParam),
}

#[derive(Clone, Debug, PartialEq, Eq)]
pub struct Request {
    pub method: Method,
    pub url: String,
    pub querystring: Vec<Param>,
    pub headers: Vec<Header>,
    pub cookies: Vec<RequestCookie>,
    pub body: Vec<u8>,
    pub multipart: Vec<MultipartParam>,
    pub form: Vec<Param>,
    /// The content type that the form, multipart or JSON body implies.
    pub content_type: Option<String>,
}

/// A name and a value.
pub struct PairView {
    pub name: Seq<char>,
    pub value: Seq<char>,
}

pub struct FileParamView {
    pub name: Seq<char>,
    pub filename: Seq<char>,
    pub data: Seq<u8>,
    pub content_type: Seq<char>,
}

pub enum MultipartParamView {
    Param(PairView),
    FileParam(FileParamView),
}

pub struct RequestView {
    pub method: Method,
    pub url: Seq<char>,
    pub querystring: Seq<PairView>,
    pub headers: Seq<PairView>,
    pub cookies: Seq<PairView>,
    pub body: Seq<u8>,
    pub multipart: Seq<MultipartParamView>,
    pub form: Seq<PairView>,
    pub content_type: Option<Seq<char>>,
}

impl View for Param {
    type V = PairView;

    open spec fn view(&self) -> PairView {
        PairView { name: self.name@, value: self.value@ }
    }
}

impl View for Header {
    type V = PairView;

    open spec fn view(&self) -> PairView {
        PairView { name: self.name@, value: self.value@ }
    }
}

impl View for RequestCookie {
    type V = PairView;

    open spec fn view(&self) -> PairView {
        PairView { name: self.name@, value: self.value@ }
    }
}

impl View for FileParam {
    type V = FileParamView;

    open spec fn view(&self) -> FileParamView {
        FileParamView {
            name: self.name@,
            filename: self.filename@,
            data: self.data@,
            content_type: self.content_type@,
        }
    }
}

impl View for MultipartParam {
    type V = MultipartParamView;

    open spec fn view(&self) -> MultipartParamView {
        match self {
            MultipartParam::Param(p) => MultipartParamView::Param(p@),
            MultipartParam::FileParam(f) => MultipartParamView::FileParam(f@),
        }
    }
}

/// The views of the elements of `v`.
pub open spec fn views<T: View>(v: Seq<T>) -> Seq<T::V> {
    v.map_values(|t: T| t@)
}

/// An optional text, taken by its characters.
pub open spec fn opt_text(s: Option<String>) -> Option<Seq<char>> {
    match s {
        Some(t) => Some(t@),
        None => None,
    }
}

impl View for Request {
    type V = RequestView;

    open spec fn view(&self) -> RequestView {
        RequestView {
            method: self.method,
            url: self.url@,
            querystring: views(self.querystring@),
            headers: views(self.headers@),
            cookies: views(self.cookies@),
            body: self.body@,
            multipart: views(self.multipart@),
            form: views(self.form@),
            content_type: opt_text(self.content_type),
        }
    }
}

} // verus!
