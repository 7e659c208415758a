//! Evaluation of a request entry into an HTTP request.
use vstd::prelude::*;
use vstd::string::StringSliceAdditionalSpecFns;
use vstd::utf8::{decode_utf8, encode_utf8, encode_utf8_decode_utf8, is_char_boundary};
use crate::ast::{Body, Bytes, Cookie, KeyValue, LineTerminator, Method, MultipartParam, Request, Section, SectionValue, Template};
use crate::error::{Error, ErrorView, result_view};
use crate::files::{FileRead, FileStore, read_bytes, read_file};
use crate::http;
use crate::http::{MultipartParamView, PairView, RequestView, views};
use crate::multipart::{eval_multipart_ref, eval_param, multipart_fn, pair_fn};
use crate::path::{resolve, resolve_path};
use crate::seqs::{eval_all, first_index, lemma_eval_all_error, lemma_eval_all_full, lemma_eval_all_step, lemma_first_index};
use crate::text::{contains, contains_chars, spec_trim, trim};
use crate::template::eval_template;
use crate::value::{Value, Variables};

verus! {

/// The kinds of section a request entry can hold.
#[derive(Clone, Copy)]
pub enum SectionKind {
    QueryParams,
    FormParams,
    MultipartFormData,
    Cookies,
}

pub open spec fn is_kind(v: SectionValue, kind: SectionKind) -> bool {
    match kind {
        SectionKind::QueryParams => v is QueryParams,
        SectionKind::FormParams => v is FormParams,
        SectionKind::MultipartFormData => v is MultipartFormData,
        SectionKind::Cookies => v is Cookies,
    }
}

/// Whether a section is of the given kind, as a predicate.
pub open spec fn kind_fn(kind: SectionKind) -> spec_fn(Section) -> bool {
    |s: Section| is_kind(s.value, kind)
}

/// The query parameters of the first query section, or none.
pub open spec fn query_params(r: Request) -> Seq<KeyValue> {
    match first_index(r.sections@, kind_fn(SectionKind::QueryParams)) {
        Some(i) => match r.sections@[i].value {
            SectionValue::QueryParams(v) => v@,
            _ => Seq::empty(),
        },
        None => Seq::empty(),
    }
}

/// The form parameters of the first form section, or none.
pub open spec fn form_params(r: Request) -> Seq<KeyValue> {
    match first_index(r.sections@, kind_fn(SectionKind::FormParams)) {
        Some(i) => match r.sections@[i].value {
            SectionValue::FormParams(v) => v@,
            _ => Seq::empty(),
        },
        None => Seq::empty(),
    }
}

/// The parameters of the first multipart section, or none.
pub open spec fn multipart_params(r: Request) -> Seq<MultipartParam> {
    match first_index(r.sections@, kind_fn(SectionKind::MultipartFormData)) {
        Some(i) => match r.sections@[i].value {
            SectionValue::MultipartFormData(v) => v@,
            _ => Seq::empty(),
        },
        None => Seq::empty(),
    }
}

/// The cookies of the first cookie section, or none.
pub open spec fn cookies(r: Request) -> Seq<Cookie> {
    match first_index(r.sections@, kind_fn(SectionKind::Cookies)) {
        Some(i) => match r.sections@[i].value {
            SectionValue::Cookies(v) => v@,
            _ => Seq::empty(),
        },
        None => Seq::empty(),
    }
}

/// A cookie as the name and value it is sent with.
pub open spec fn cookie_view(c: Cookie) -> PairView {
    PairView { name: c.name.value@, value: c.value.value@ }
}

/// The bytes of a body: the UTF-8 encoding of its text, the decoded
/// base64 bytes, or the contents of its file.
pub open spec fn eval_body(
    body: Option<Body>,
    vars: Map<Seq<char>, Value>,
    dir: Seq<char>,
    files: Map<Seq<char>, FileRead>,
) -> Result<Seq<u8>, ErrorView> {
    match body {
        None => Ok(Seq::empty()),
        Some(b) => match b.value {
            Bytes::Json { value } => match eval_template(value@, vars) {
                Ok(s) => Ok(encode_utf8(s)),
                Err(e) => Err(e),
            },
            Bytes::Xml { value } => Ok(encode_utf8(value@)),
            Bytes::RawString { value, .. } => match eval_template(value@, vars) {
                Ok(s) => Ok(encode_utf8(s)),
                Err(e) => Err(e),
            },
            Bytes::Base64 { value, .. } => Ok(value@),
            Bytes::File { filename, .. } => read_file(
                files,
                dir,
                filename.value@,
                filename.source_info,
            ),
        },
    }
}

/// The content type a request implies: a form, else a multipart form, else
/// a JSON body, each with its media type.
pub open spec fn implicit_content_type(
    form: Seq<PairView>,
    multipart: Seq<MultipartParamView>,
    body: Option<Body>,
) -> Option<Seq<char>> {
    if form.len() > 0 {
        Some("application/x-www-form-urlencoded"@)
    } else if multipart.len() > 0 {
        Some("multipart/form-data"@)
    } else if body matches Some(b) && b.value is Json {
        Some("application/json"@)
    } else {
        None
    }
}

/// The HTTP method a request method stands for.
pub open spec fn http_method(m: Method) -> http::Method {
    match m {
        Method::Get => http::Method::Get,
        Method::Head => http::Method::Head,
        Method::Post => http::Method::Post,
        Method::Put => http::Method::Put,
        Method::Delete => http::Method::Delete,
        Method::Connect => http::Method::Connect,
        Method::Options => http::Method::Options,
        Method::Trace => http::Method::Trace,
        Method::Patch => http::Method::Patch,
    }
}

/// A request entry evaluated: URL, headers, query parameters, form
/// parameters, body and multipart parameters are evaluated in that order
/// and the first error is the outcome; cookies are taken as written.
pub open spec fn eval_request(
    r: Request,
    vars: Map<Seq<char>, Value>,
    dir: Seq<char>,
    files: Map<Seq<char>, FileRead>,
) -> Result<RequestView, ErrorView> {
    match eval_template(r.url@, vars) {
        Err(e) => Err(e),
        Ok(url) => match eval_all(r.headers@, pair_fn(vars)) {
            Err(e) => Err(e),
            Ok(headers) => match eval_all(query_params(r), pair_fn(vars)) {
                Err(e) => Err(e),
                Ok(querystring) => match eval_all(form_params(r), pair_fn(vars)) {
                    Err(e) => Err(e),
                    Ok(form) => match eval_body(r.body, vars, dir, files) {
                        Err(e) => Err(e),
                        Ok(body) => match eval_all(
                            multipart_params(r),
                            multipart_fn(vars, dir, files),
                        ) {
                            Err(e) => Err(e),
                            Ok(multipart) => Ok(
                                RequestView {
                                    method: http_method(r.method),
                                    url,
                                    querystring,
                                    headers,
                                    cookies: cookies(r).map_values(|c: Cookie| cookie_view(c)),
                                    body,
                                    multipart,
                                    form,
                                    content_type: implicit_content_type(form, multipart, r.body),
                                },
                            ),
                        },
                    },
                },
            },
        },
    }
}

/// A list result taken by the views of its elements.
pub open spec fn list_view<T: View>(r: Result<Vec<T>, Error>) -> Result<Seq<T::V>, ErrorView> {
    match r {
        Ok(v) => Ok(views(v@)),
        Err(e) => Err(e@),
    }
}

fn section_is(v: &SectionValue, kind: SectionKind) -> (r: bool)
    ensures
        r == is_kind(*v, kind),
{
    match kind {
        SectionKind::QueryParams => matches!(v, SectionValue::QueryParams(_)),
        SectionKind::FormParams => matches!(v, SectionValue::FormParams(_)),
        SectionKind::MultipartFormData => matches!(v, SectionValue::MultipartFormData(_)),
        SectionKind::Cookies => matches!(v, SectionValue::Cookies(_)),
    }
}

/// The position of the first section of the given kind.
fn find_section(sections: &Vec<Section>, kind: SectionKind) -> (r: Option<usize>)
    ensures
        match r {
            Some(i) => i < sections@.len() && is_kind(sections@[i as int].value, kind)
                && first_index(sections@, kind_fn(kind)) == Some(i as int),
            None => first_index(sections@, kind_fn(kind)) == None::<int>,
        },
{
    let mut i: usize = 0;
    while i < sections.len()
        invariant
            i <= sections@.len(),
            forall|k: int| 0 <= k < i ==> !kind_fn(kind)(#[trigger] sections@[k]),
        decreases sections@.len() - i,
    {
        if section_is(&sections[i].value, kind) {
            proof {
                lemma_first_index(sections@, kind_fn(kind), i as int);
            }
            return Some(i);
        }
        i = i + 1;
    }
    proof {
        lemma_first_index(sections@, kind_fn(kind), i as int);
    }
    None
}

fn eval_params(kvs: &Vec<KeyValue>, variables: &Variables) -> (r: Result<Vec<http::Param>, Error>)
    ensures
        list_view(r) == eval_all(kvs@, pair_fn(variables@)),
{
    let ghost f = pair_fn(variables@);
    let mut out: Vec<http::Param> = Vec::new();
    let mut i: usize = 0;
    assert(kvs@.subrange(0, 0) =~= Seq::<KeyValue>::empty());
    assert(views(out@) =~= Seq::<PairView>::empty());
    while i < kvs.len()
        invariant
            i <= kvs@.len(),
            f == pair_fn(variables@),
            out@.len() == i,
            eval_all(kvs@.subrange(0, i as int), f) == Ok::<Seq<PairView>, ErrorView>(
                views(out@),
            ),
        decreases kvs@.len() - i,
    {
        let r = eval_param(&kvs[i], variables);
        proof {
            lemma_eval_all_step(kvs@, f, i as int);
        }
        match r {
            Ok(p) => {
                let ghost before = out@;
                out.push(p);
                assert(views(out@) =~= views(before).push(out@[i as int]@));
            },
            Err(e) => {
                proof {
                    lemma_eval_all_error(kvs@, f, i + 1);
                }
                return Err(e);
            },
        }
        i = i + 1;
    }
    proof {
        lemma_eval_all_full(kvs@, f);
    }
    Ok(out)
}

fn eval_headers(kvs: &Vec<KeyValue>, variables: &Variables) -> (r: Result<
    Vec<http::Header>,
    Error,
>)
    ensures
        list_view(r) == eval_all(kvs@, pair_fn(variables@)),
{
    let ghost f = pair_fn(variables@);
    let mut out: Vec<http::Header> = Vec::new();
    let mut i: usize = 0;
    assert(kvs@.subrange(0, 0) =~= Seq::<KeyValue>::empty());
    assert(views(out@) =~= Seq::<PairView>::empty());
    while i < kvs.len()
        invariant
            i <= kvs@.len(),
            f == pair_fn(variables@),
            out@.len() == i,
            eval_all(kvs@.subrange(0, i as int), f) == Ok::<Seq<PairView>, ErrorView>(
                views(out@),
            ),
        decreases kvs@.len() - i,
    {
        let r = eval_param(&kvs[i], variables);
        proof {
            lemma_eval_all_step(kvs@, f, i as int);
        }
        match r {
            Ok(p) => {
                let ghost before = out@;
                out.push(http::Header { name: p.name, value: p.value });
                assert(views(out@) =~= views(before).push(out@[i as int]@));
            },
            Err(e) => {
                proof {
                    lemma_eval_all_error(kvs@, f, i + 1);
                }
                return Err(e);
            },
        }
        i = i + 1;
    }
    proof {
        lemma_eval_all_full(kvs@, f);
    }
    Ok(out)
}

fn eval_multipart_list(
    ps: &Vec<MultipartParam>,
    variables: &Variables,
    context_dir: &str,
    files: &FileStore,
) -> (r: Result<Vec<http::MultipartParam>, Error>)
    ensures
        list_view(r) == eval_all(ps@, multipart_fn(variables@, context_dir@, files@)),
{
    let ghost f = multipart_fn(variables@, context_dir@, files@);
    let mut out: Vec<http::MultipartParam> = Vec::new();
    let mut i: usize = 0;
    assert(ps@.subrange(0, 0) =~= Seq::<MultipartParam>::empty());
    assert(views(out@) =~= Seq::<MultipartParamView>::empty());
    while i < ps.len()
        invariant
            i <= ps@.len(),
            f == multipart_fn(variables@, context_dir@, files@),
            out@.len() == i,
            eval_all(ps@.subrange(0, i as int), f) == Ok::<Seq<MultipartParamView>, ErrorView>(
                views(out@),
            ),
        decreases ps@.len() - i,
    {
        let r = eval_multipart_ref(&ps[i], variables, context_dir, files);
        proof {
            lemma_eval_all_step(ps@, f, i as int);
        }
        match r {
            Ok(p) => {
                let ghost before = out@;
                out.push(p);
                assert(views(out@) =~= views(before).push(out@[i as int]@));
            },
            Err(e) => {
                proof {
                    lemma_eval_all_error(ps@, f, i + 1);
                }
                return Err(e);
            },
        }
        i = i + 1;
    }
    proof {
        lemma_eval_all_full(ps@, f);
    }
    Ok(out)
}

fn cookie_list(cs: &Vec<Cookie>) -> (r: Vec<http::RequestCookie>)
    ensures
        views(r@) == cs@.map_values(|c: Cookie| cookie_view(c)),
{
    let mut out: Vec<http::RequestCookie> = Vec::new();
    let mut i: usize = 0;
    while i < cs.len()
        invariant
            i <= cs@.len(),
            out@.len() == i,
            forall|k: int| 0 <= k < i ==> #[trigger] out@[k]@ == cookie_view(cs@[k]),
        decreases cs@.len() - i,
    {
        out.push(
            http::RequestCookie { name: cs[i].name.value.clone(), value: cs[i].value.value.clone() },
        );
        i = i + 1;
    }
    assert(views(out@) =~= cs@.map_values(|c: Cookie| cookie_view(c)));
    out
}

fn eval_body_bytes(
    body: &Option<Body>,
    variables: &Variables,
    context_dir: &str,
    files: &FileStore,
) -> (r: Result<Vec<u8>, Error>)
    ensures
        match r {
            Ok(b) => eval_body(*body, variables@, context_dir@, files@) == Ok::<
                Seq<u8>,
                ErrorView,
            >(b@),
            Err(e) => eval_body(*body, variables@, context_dir@, files@) == Err::<
                Seq<u8>,
                ErrorView,
            >(e@),
        },
{
    match body {
        None => Ok(Vec::new()),
        Some(b) => match &b.value {
            Bytes::Json { value } => match value.eval(variables) {
                Ok(s) => Ok(s.as_str().as_bytes_vec()),
                Err(e) => Err(e),
            },
            Bytes::Xml { value } => Ok(value.as_str().as_bytes_vec()),
            Bytes::RawString { value, .. } => match value.eval(variables) {
                Ok(s) => Ok(s.as_str().as_bytes_vec()),
                Err(e) => Err(e),
            },
            Bytes::Base64 { value, .. } => Ok(crate::files::copy_bytes(value)),
            Bytes::File { filename, .. } => read_bytes(files, context_dir, filename),
        },
    }
}

impl Method {
    /// The HTTP method this method stands for.
    pub fn eval(self) -> (r: http::Method)
        ensures
            r == http_method(self),
    {
        match self {
            Method::Get => http::Method::Get,
            Method::Head => http::Method::Head,
            Method::Post => http::Method::Post,
            Method::Put => http::Method::Put,
            Method::Delete => http::Method::Delete,
            Method::Connect => http::Method::Connect,
            Method::Options => http::Method::Options,
            Method::Trace => http::Method::Trace,
            Method::Patch => http::Method::Patch,
        }
    }
}

impl Request {
    fn eval_query(&self, variables: &Variables) -> (r: Result<Vec<http::Param>, Error>)
        ensures
            list_view(r) == eval_all(query_params(*self), pair_fn(variables@)),
    {
        match find_section(&self.sections, SectionKind::QueryParams) {
            Some(i) => match &self.sections[i].value {
                SectionValue::QueryParams(v) => eval_params(v, variables),
                _ => Ok(Vec::new()),
            },
            None => {
                let r = Vec::new();
                assert(views(r@) =~= Seq::empty());
                Ok(r)
            },
        }
    }

    fn eval_form(&self, variables: &Variables) -> (r: Result<Vec<http::Param>, Error>)
        ensures
            list_view(r) == eval_all(form_params(*self), pair_fn(variables@)),
    {
        match find_section(&self.sections, SectionKind::FormParams) {
            Some(i) => match &self.sections[i].value {
                SectionValue::FormParams(v) => eval_params(v, variables),
                _ => Ok(Vec::new()),
            },
            None => {
                let r = Vec::new();
                assert(views(r@) =~= Seq::empty());
                Ok(r)
            },
        }
    }

    fn eval_multipart(&self, variables: &Variables, context_dir: &str, files: &FileStore) -> (r:
        Result<Vec<http::MultipartParam>, Error>)
        ensures
            list_view(r) == eval_all(
                multipart_params(*self),
                multipart_fn(variables@, context_dir@, files@),
            ),
    {
        match find_section(&self.sections, SectionKind::MultipartFormData) {
            Some(i) => match &self.sections[i].value {
                SectionValue::MultipartFormData(v) => eval_multipart_list(
                    v,
                    variables,
                    context_dir,
                    files,
                ),
                _ => Ok(Vec::new()),
            },
            None => {
                let r = Vec::new();
                assert(views(r@) =~= Seq::empty());
                Ok(r)
            },
        }
    }

    fn eval_cookies(&self) -> (r: Vec<http::RequestCookie>)
        ensures
            views(r@) == cookies(*self).map_values(|c: Cookie| cookie_view(c)),
    {
        match find_section(&self.sections, SectionKind::Cookies) {
            Some(i) => match &self.sections[i].value {
                SectionValue::Cookies(v) => cookie_list(v),
                _ => Vec::new(),
            },
            None => {
                let r: Vec<http::RequestCookie> = Vec::new();
                assert(views(r@) =~= Seq::<Cookie>::empty().map_values(
                    |c: Cookie| cookie_view(c),
                ));
                r
            },
        }
    }

    /// The HTTP request this entry stands for under `variables`, with files
    /// read from `files` at paths relative to `context_dir`.
    pub fn eval(self, variables: &Variables, context_dir: String, files: &FileStore) -> (r:
        Result<http::Request, Error>)
        ensures
            result_view(r) == eval_request(self, variables@, context_dir@, files@),
            r matches Ok(h) ==> {
                &&& h.form@.len() > 0 ==> http::opt_text(h.content_type) == Some(
                    "application/x-www-form-urlencoded"@,
                )
                &&& (h.form@.len() == 0 && h.multipart@.len() > 0) ==> http::opt_text(
                    h.content_type,
                ) == Some("multipart/form-data"@)
                &&& (h.form@.len() == 0 && h.multipart@.len() == 0 && (self.body matches Some(
                    b,
                ) && b.value is Json)) ==> http::opt_text(h.content_type) == Some(
                    "application/json"@,
                )
                &&& (h.form@.len() == 0 && h.multipart@.len() == 0 && !(self.body matches Some(
                    b,
                ) && b.value is Json)) ==> h.content_type is None
            },
    {
        let method = self.method.eval();
        let url = match self.url.eval(variables) {
            Ok(u) => u,
            Err(e) => {
                return Err(e);
            },
        };
        let headers = match eval_headers(&self.headers, variables) {
            Ok(h) => h,
            Err(e) => {
                return Err(e);
            },
        };
        let querystring = match self.eval_query(variables) {
            Ok(q) => q,
            Err(e) => {
                return Err(e);
            },
        };
        let form = match self.eval_form(variables) {
            Ok(f) => f,
            Err(e) => {
                return Err(e);
            },
        };
        let cookies = self.eval_cookies();
        let bytes = match eval_body_bytes(&self.body, variables, context_dir.as_str(), files) {
            Ok(b) => b,
            Err(e) => {
                return Err(e);
            },
        };
        let multipart = match self.eval_multipart(variables, context_dir.as_str(), files) {
            Ok(m) => m,
            Err(e) => {
                return Err(e);
            },
        };
        let content_type = if form.len() > 0 {
            Some("application/x-www-form-urlencoded".to_string())
        } else if multipart.len() > 0 {
            Some("multipart/form-data".to_string())
        } else if is_json_body(&self.body) {
            Some("application/json".to_string())
        } else {
            None
        };
        Ok(
            http::Request {
                method,
                url,
                querystring,
                headers,
                cookies,
                body: bytes,
                multipart,
                form,
                content_type,
            },
        )
    }
}

fn is_json_body(body: &Option<Body>) -> (r: bool)
    ensures
        r == (*body matches Some(b) && b.value is Json),
{
    match body {
        Some(b) => matches!(b.value, Bytes::Json { .. }),
        None => false,
    }
}

/// The lower-case form of `s`, as `str::to_lowercase` gives it.
pub uninterp spec fn lowercase(s: Seq<char>) -> Seq<char>;

/// Calls `str::to_lowercase`, which maps each character to its lower-case
/// form by the Unicode tables; header names that are not ASCII text are
/// lowered with it. The contract only names the result: it is a function of
/// `s` alone, and what that function is is left unstated.
#[verifier::external_body]
fn to_lowercase(s: &str) -> (r: String)
    ensures
        r@ == lowercase(s@),
{
    s.to_lowercase()
}

/// `c` with an ASCII capital letter replaced by its small letter.
pub open spec fn ascii_lower_char(c: char) -> char {
    if 'A' <= c <= 'Z' {
        ((c as int) + 32) as char
    } else {
        c
    }
}

/// `s` with each ASCII capital letter replaced by its small letter.
pub open spec fn ascii_lower(s: Seq<char>) -> Seq<char> {
    s.map_values(|c: char| ascii_lower_char(c))
}

/// Whether a header name is `content-type` in lower case: for ASCII text,
/// capital letters map to small ones; other text goes by `lowercase`.
pub open spec fn names_content_type(name: Seq<char>) -> bool {
    if vstd::utf8::is_ascii_chars(name) {
        ascii_lower(name) == "content-type"@
    } else {
        lowercase(name) == "content-type"@
    }
}

/// Whether a header names the content type, in any letter case.
pub open spec fn content_type_header_fn() -> spec_fn(KeyValue) -> bool {
    |kv: KeyValue| names_content_type(kv.key.value@)
}

fn lower_ascii_char(c: char) -> (r: char)
    ensures
        r == ascii_lower_char(c),
{
    if 'A' <= c && c <= 'Z' {
        let b: u8 = c as u8;
        (b + 32) as char
    } else {
        c
    }
}

/// Whether `name`, with its ASCII capital letters made small, is
/// `content-type`.
fn ascii_content_type_name(name: &str) -> (r: bool)
    ensures
        r == (ascii_lower(name@) == "content-type"@),
{
    let v = crate::text::chars_of(name);
    let t = crate::text::chars_of("content-type");
    if v.len() != t.len() {
        return false;
    }
    let mut i: usize = 0;
    while i < v.len()
        invariant
            v@ == name@,
            t@ == "content-type"@,
            v@.len() == t@.len(),
            i <= v@.len(),
            forall|k: int| 0 <= k < i ==> ascii_lower_char(v@[k]) == t@[k],
        decreases v@.len() - i,
    {
        if lower_ascii_char(v[i]) != t[i] {
            assert(ascii_lower(name@)[i as int] != t@[i as int]);
            return false;
        }
        i = i + 1;
    }
    assert(ascii_lower(name@) =~= t@);
    true
}

proof fn lemma_content_type_is_lower()
    ensures
        ascii_lower("content-type"@) == "content-type"@,
{
    reveal_strlit("content-type");
    assert(ascii_lower("content-type"@) =~= "content-type"@);
}

/// The position of the first of `lowered_names` that is `content-type`.
pub fn content_type_position(lowered_names: &Vec<String>) -> (r: Option<usize>)
    ensures
        match r {
            Some(i) => i < lowered_names@.len() && lowered_names@[i as int]@ == "content-type"@
                && forall|k: int| 0 <= k < i ==> lowered_names@[k]@ != "content-type"@,
            None => forall|k: int|
                0 <= k < lowered_names@.len() ==> lowered_names@[k]@ != "content-type"@,
        },
{
    let target = "content-type";
    let mut i: usize = 0;
    while i < lowered_names.len()
        invariant
            i <= lowered_names@.len(),
            target@ == "content-type"@,
            forall|k: int| 0 <= k < i ==> lowered_names@[k]@ != "content-type"@,
        decreases lowered_names@.len() - i,
    {
        if crate::text::same_text(lowered_names[i].as_str(), target) {
            return Some(i);
        }
        i = i + 1;
    }
    None
}

/// Whether a line's comment contains `marker`.
pub open spec fn marker_fn(marker: Seq<char>) -> spec_fn(LineTerminator) -> bool {
    |lt: LineTerminator|
        match lt.comment {
            Some(c) => contains_chars(c.value@, marker),
            None => false,
        }
}

/// The text of a line's comment, empty where it has none.
pub open spec fn comment_text(lt: LineTerminator) -> Seq<char> {
    match lt.comment {
        Some(c) => c.value@,
        None => Seq::empty(),
    }
}

/// Where the stored cookie starts in a comment: the length in bytes of
/// `#@cookie_storage_set:`.
pub open spec fn cookie_set_offset() -> int {
    encode_utf8("#@cookie_storage_set:"@).len() as int
}

/// The cookie a comment stores: its text from the cookie offset on,
/// without surrounding white space.
pub open spec fn stored_cookie(comment: Seq<char>) -> Seq<char> {
    let b = encode_utf8(comment);
    spec_trim(decode_utf8(b.subrange(cookie_set_offset(), b.len() as int)))
}

/// The position of the first line whose comment contains `marker`.
fn find_marked(lts: &Vec<LineTerminator>, marker: &str) -> (r: Option<usize>)
    ensures
        match r {
            Some(i) => i < lts@.len() && marker_fn(marker@)(lts@[i as int])
                && first_index(lts@, marker_fn(marker@)) == Some(i as int),
            None => first_index(lts@, marker_fn(marker@)) == None::<int>,
        },
{
    let mut i: usize = 0;
    while i < lts.len()
        invariant
            i <= lts@.len(),
            forall|k: int| 0 <= k < i ==> !marker_fn(marker@)(#[trigger] lts@[k]),
        decreases lts@.len() - i,
    {
        let found = match &lts[i].comment {
            Some(c) => contains(c.value.as_str(), marker),
            None => false,
        };
        if found {
            proof {
                lemma_first_index(lts@, marker_fn(marker@), i as int);
            }
            return Some(i);
        }
        i = i + 1;
    }
    proof {
        lemma_first_index(lts@, marker_fn(marker@), i as int);
    }
    None
}

impl Request {
    /// The template of the first header named `Content-Type`, in any letter
    /// case: an ASCII name is compared with its capital letters made small,
    /// another name after `str::to_lowercase`.
    pub fn content_type(&self) -> (r: Option<Template>)
        ensures
            match first_index(self.headers@, content_type_header_fn()) {
                Some(i) => r matches Some(t) && t@ == self.headers@[i].value@,
                None => r is None,
            },
    {
        let mut lowered: Vec<String> = Vec::new();
        let mut i: usize = 0;
        while i < self.headers.len()
            invariant
                i <= self.headers@.len(),
                lowered@.len() == i,
                forall|k: int|
                    0 <= k < i ==> (#[trigger] lowered@[k]@ == "content-type"@)
                        == names_content_type(self.headers@[k].key.value@),
            decreases self.headers@.len() - i,
        {
            let key = self.headers[i].key.value.as_str();
            if key.is_ascii() {
                if ascii_content_type_name(key) {
                    lowered.push("content-type".to_string());
                } else {
                    proof {
                        lemma_content_type_is_lower();
                    }
                    lowered.push(self.headers[i].key.value.clone());
                }
            } else {
                lowered.push(to_lowercase(key));
            }
            i = i + 1;
        }
        let pos = content_type_position(&lowered);
        proof {
            let f = content_type_header_fn();
            match pos {
                Some(p) => {
                    assert forall|k: int| 0 <= k < p implies !f(#[trigger] self.headers@[k]) by {
                        assert(lowered@[k]@ != "content-type"@);
                    }
                    lemma_first_index(self.headers@, f, p as int);
                },
                None => {
                    assert forall|k: int| 0 <= k < self.headers@.len() implies !f(
                        #[trigger] self.headers@[k],
                    ) by {
                        assert(lowered@[k]@ != "content-type"@);
                    }
                    lemma_first_index(self.headers@, f, self.headers@.len() as int);
                },
            }
        }
        match pos {
            Some(p) => Some(self.headers[p].value.copy()),
            None => None,
        }
    }

    /// The cookie that the first comment containing `@cookie_storage_set:`
    /// stores: the comment's text from the byte offset of the length of
    /// `#@cookie_storage_set:` on, trimmed; none where no comment has it.
    pub fn add_cookie_in_storage(&self) -> (r: Option<String>)
        requires
            match first_index(self.line_terminators@, marker_fn("@cookie_storage_set:"@)) {
                Some(i) => is_char_boundary(
                    encode_utf8(comment_text(self.line_terminators@[i])),
                    cookie_set_offset(),
                ),
                None => true,
            },
        ensures
            match first_index(self.line_terminators@, marker_fn("@cookie_storage_set:"@)) {
                Some(i) => r matches Some(v) && v@ == stored_cookie(
                    comment_text(self.line_terminators@[i]),
                ),
                None => r is None,
            },
    {
        match find_marked(&self.line_terminators, "@cookie_storage_set:") {
            Some(i) => match &self.line_terminators[i].comment {
                Some(c) => {
                    let prefix = "#@cookie_storage_set:";
                    let index: usize = prefix.len();
                    proof {
                        reveal_strlit("#@cookie_storage_set:");
                        assert(vstd::string::is_ascii(prefix));
                        assert(prefix.spec_bytes().len() == prefix@.len());
                    }
                    let s = c.value.as_str();
                    let (_, rest) = s.split_at(index);
                    proof {
                        encode_utf8_decode_utf8(rest@);
                    }
                    Some(trim(rest))
                },
                None => None,
            },
            None => None,
        }
    }

    /// Whether a comment of this entry contains `@cookie_storage_clear`.
    pub fn clear_cookie_storage(&self) -> (r: bool)
        ensures
            r == first_index(self.line_terminators@, marker_fn("@cookie_storage_clear"@)) is Some,
    {
        match find_marked(&self.line_terminators, "@cookie_storage_clear") {
            Some(_) => true,
            None => false,
        }
    }
}

/// The file a multipart parameter reads, if it is a file parameter.
pub open spec fn param_files(p: MultipartParam, dir: Seq<char>) -> Seq<Seq<char>> {
    match p {
        MultipartParam::FileParam(f) => seq![resolve_path(dir, f.value.filename.value@)],
        MultipartParam::Param(_) => Seq::empty(),
    }
}

/// The files the multipart parameters read, in order.
pub open spec fn multipart_files(ps: Seq<MultipartParam>, dir: Seq<char>) -> Seq<Seq<char>>
    decreases ps.len(),
{
    if ps.len() == 0 {
        Seq::empty()
    } else {
        multipart_files(ps.drop_last(), dir) + param_files(ps.last(), dir)
    }
}

/// The file a body reads, if it is a file body.
pub open spec fn body_files(body: Option<Body>, dir: Seq<char>) -> Seq<Seq<char>> {
    match body {
        Some(b) => match b.value {
            Bytes::File { filename, .. } => seq![resolve_path(dir, filename.value@)],
            _ => Seq::empty(),
        },
        None => Seq::empty(),
    }
}

/// The files evaluating a request entry reads: its body's file, then the
/// files of its multipart parameters.
pub open spec fn needed_files(r: Request, dir: Seq<char>) -> Seq<Seq<char>> {
    body_files(r.body, dir) + multipart_files(multipart_params(r), dir)
}

fn multipart_paths(ps: &Vec<MultipartParam>, context_dir: &str, out: &mut Vec<String>)
    ensures
        views(final(out)@) == views(old(out)@) + multipart_files(ps@, context_dir@),
{
    let mut i: usize = 0;
    let ghost start = views(out@);
    assert(ps@.subrange(0, 0) =~= Seq::<MultipartParam>::empty());
    assert(start =~= start + multipart_files(ps@.subrange(0, 0), context_dir@));
    while i < ps.len()
        invariant
            i <= ps@.len(),
            views(out@) == start + multipart_files(ps@.subrange(0, i as int), context_dir@),
        decreases ps@.len() - i,
    {
        let ghost before = views(out@);
        assert(ps@.subrange(0, i + 1).drop_last() =~= ps@.subrange(0, i as int));
        match &ps[i] {
            MultipartParam::FileParam(f) => {
                let path = resolve(context_dir, f.value.filename.value.as_str());
                out.push(path);
                assert(views(out@) =~= before.push(out@.last()@));
            },
            MultipartParam::Param(_) => {},
        }
        i = i + 1;
        assert(views(out@) =~= start + multipart_files(ps@.subrange(0, i as int), context_dir@));
    }
    assert(ps@.subrange(0, i as int) =~= ps@);
}

impl Request {
    /// The paths, relative to `context_dir`, of the files evaluating this
    /// entry reads: its body's file, then those of its multipart parameters.
    pub fn files_to_read(&self, context_dir: &str) -> (r: Vec<String>)
        ensures
            views(r@) == needed_files(*self, context_dir@),
    {
        let mut out: Vec<String> = Vec::new();
        match &self.body {
            Some(b) => match &b.value {
                Bytes::File { filename, .. } => {
                    out.push(resolve(context_dir, filename.value.as_str()));
                },
                _ => {},
            },
            None => {},
        }
        assert(views(out@) =~= body_files(self.body, context_dir@));
        match find_section(&self.sections, SectionKind::MultipartFormData) {
            Some(i) => match &self.sections[i].value {
                SectionValue::MultipartFormData(v) => {
                    multipart_paths(v, context_dir, &mut out);
                },
                _ => {},
            },
            None => {
                assert(multipart_files(Seq::empty(), context_dir@) =~= Seq::empty());
                assert(views(out@) =~= views(out@) + multipart_files(Seq::empty(), context_dir@));
            },
        }
        out
    }
}

} // verus!
