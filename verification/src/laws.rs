//! Properties of evaluation that hold across inputs.
use vstd::prelude::*;
use crate::ast::{ElementView, MultipartParam, Request};
use crate::error::ErrorView;
use crate::files::{FileRead, read_file};
use crate::multipart::{multipart_fn, pair_fn};
use crate::path::resolve_path;
use crate::request::{eval_body, eval_request, multipart_files, multipart_params, needed_files};
use crate::seqs::{eval_all, lemma_eval_all_agree, lemma_eval_all_len};
use crate::template::{eval_element, eval_elements};
use crate::value::Value;
use crate::request::stored_cookie;
use crate::text::{is_white_space, spec_trim, trim_end, trim_start};

verus! {

/// What reading the file at `path` gave: nothing where it could not be read,
/// the bytes, or the news that it vanished.
pub open spec fn read_outcome(files: Map<Seq<char>, FileRead>, path: Seq<char>) -> Option<
    Option<Seq<u8>>,
> {
    if files.contains_key(path) {
        match files[path] {
            FileRead::Content(d) => Some(Some(d@)),
            FileRead::Vanished => Some(None),
        }
    } else {
        None
    }
}

proof fn lemma_read_file_agree(
    f1: Map<Seq<char>, FileRead>,
    f2: Map<Seq<char>, FileRead>,
    dir: Seq<char>,
    name: Seq<char>,
    info: crate::ast::SourceInfo,
)
    requires
        read_outcome(f1, resolve_path(dir, name)) == read_outcome(f2, resolve_path(dir, name)),
    ensures
        read_file(f1, dir, name, info) == read_file(f2, dir, name, info),
{
}

proof fn lemma_multipart_files_contains(ps: Seq<MultipartParam>, dir: Seq<char>, k: int)
    requires
        0 <= k < ps.len(),
    ensures
        ps[k] matches MultipartParam::FileParam(f) ==> multipart_files(ps, dir).contains(
            resolve_path(dir, f.value.filename.value@),
        ),
    decreases ps.len(),
{
    let t = ps.drop_last();
    if k < ps.len() - 1 {
        assert(ps[k] == t[k]);
        lemma_multipart_files_contains(t, dir, k);
        if let MultipartParam::FileParam(f) = ps[k] {
            let p = resolve_path(dir, f.value.filename.value@);
            let j: int = choose|j: int| 0 <= j < multipart_files(t, dir).len() && multipart_files(t, dir)[j] == p;
            assert(multipart_files(ps, dir)[j] == p);
        }
    } else {
        if let MultipartParam::FileParam(f) = ps[k] {
            let p = resolve_path(dir, f.value.filename.value@);
            assert(multipart_files(ps, dir)[multipart_files(t, dir).len() as int] == p);
        }
    }
}

/// Evaluating a request entry reads no file but those that `needed_files`
/// lists: two file stores that agree on those files give the same outcome.
pub proof fn law_eval_reads_only_needed_files(
    r: Request,
    vars: Map<Seq<char>, Value>,
    dir: Seq<char>,
    f1: Map<Seq<char>, FileRead>,
    f2: Map<Seq<char>, FileRead>,
)
    requires
        forall|p: Seq<char>|
            needed_files(r, dir).contains(p) ==> #[trigger] read_outcome(f1, p) == read_outcome(
                f2,
                p,
            ),
    ensures
        eval_request(r, vars, dir, f1) == eval_request(r, vars, dir, f2),
{
    let needed = needed_files(r, dir);
    if let Some(b) = r.body {
        if let crate::ast::Bytes::File { filename, .. } = b.value {
            let p = resolve_path(dir, filename.value@);
            assert(needed[0] == p);
            lemma_read_file_agree(f1, f2, dir, filename.value@, filename.source_info);
        }
    }
    assert(eval_body(r.body, vars, dir, f1) == eval_body(r.body, vars, dir, f2));
    let ps = multipart_params(r);
    let g1 = multipart_fn(vars, dir, f1);
    let g2 = multipart_fn(vars, dir, f2);
    assert forall|k: int| 0 <= k < ps.len() implies g1(#[trigger] ps[k]) == g2(ps[k]) by {
        lemma_multipart_files_contains(ps, dir, k);
        if let MultipartParam::FileParam(f) = ps[k] {
            let p = resolve_path(dir, f.value.filename.value@);
            let mf = multipart_files(ps, dir);
            let j: int = choose|j: int| 0 <= j < mf.len() && mf[j] == p;
            let bf = crate::request::body_files(r.body, dir);
            assert(needed[bf.len() + j] == p);
            lemma_read_file_agree(f1, f2, dir, f.value.filename.value@, f.value.filename.source_info);
        }
    }
    lemma_eval_all_agree(ps, g1, g2);
}

proof fn lemma_template_more_vars(
    es: Seq<ElementView>,
    v1: Map<Seq<char>, Value>,
    v2: Map<Seq<char>, Value>,
)
    requires
        v1.submap_of(v2),
        eval_elements(es, v1) is Ok,
    ensures
        eval_elements(es, v2) == eval_elements(es, v1),
    decreases es.len(),
{
    if es.len() > 0 {
        lemma_template_more_vars(es.drop_last(), v1, v2);
        assert(eval_element(es.last(), v2) == eval_element(es.last(), v1));
    }
}

/// Where `f` succeeds, `g` agrees with it: then where collecting with `f`
/// succeeds, collecting with `g` gives the same.
proof fn lemma_eval_all_ok_agree<A, B>(
    xs: Seq<A>,
    f: spec_fn(A) -> Result<B, ErrorView>,
    g: spec_fn(A) -> Result<B, ErrorView>,
)
    requires
        forall|x: A| #[trigger] f(x) is Ok ==> g(x) == f(x),
        eval_all(xs, f) is Ok,
    ensures
        eval_all(xs, g) == eval_all(xs, f),
    decreases xs.len(),
{
    if xs.len() > 0 {
        lemma_eval_all_ok_agree(xs.drop_last(), f, g);
        assert(f(xs.last()) is Ok);
    }
}

proof fn lemma_pairs_more_vars(v1: Map<Seq<char>, Value>, v2: Map<Seq<char>, Value>)
    requires
        v1.submap_of(v2),
    ensures
        forall|kv: crate::ast::KeyValue| #[trigger]
            pair_fn(v1)(kv) is Ok ==> pair_fn(v2)(kv) == pair_fn(v1)(kv),
{
    assert forall|kv: crate::ast::KeyValue| #[trigger]
        pair_fn(v1)(kv) is Ok implies pair_fn(v2)(kv) == pair_fn(v1)(kv) by {
        lemma_template_more_vars(kv.value@.elements, v1, v2);
    }
}

/// Evaluating under more variables keeps a successful evaluation as it
/// was: variables that a template does not name change nothing.
pub proof fn law_more_variables_keep_success(
    r: Request,
    v1: Map<Seq<char>, Value>,
    v2: Map<Seq<char>, Value>,
    dir: Seq<char>,
    files: Map<Seq<char>, FileRead>,
)
    requires
        v1.submap_of(v2),
        eval_request(r, v1, dir, files) is Ok,
    ensures
        eval_request(r, v2, dir, files) == eval_request(r, v1, dir, files),
{
    lemma_template_more_vars(r.url@.elements, v1, v2);
    lemma_pairs_more_vars(v1, v2);
    lemma_eval_all_ok_agree(r.headers@, pair_fn(v1), pair_fn(v2));
    lemma_eval_all_ok_agree(crate::request::query_params(r), pair_fn(v1), pair_fn(v2));
    lemma_eval_all_ok_agree(crate::request::form_params(r), pair_fn(v1), pair_fn(v2));
    if let Some(b) = r.body {
        match b.value {
            crate::ast::Bytes::Json { value } => {
                lemma_template_more_vars(value@.elements, v1, v2);
            },
            crate::ast::Bytes::RawString { value, .. } => {
                lemma_template_more_vars(value@.elements, v1, v2);
            },
            _ => {},
        }
    }
    let g1 = multipart_fn(v1, dir, files);
    let g2 = multipart_fn(v2, dir, files);
    assert forall|p: MultipartParam| #[trigger] g1(p) is Ok implies g2(p) == g1(p) by {
        if let MultipartParam::Param(kv) = p {
            lemma_template_more_vars(kv.value@.elements, v1, v2);
        }
    }
    lemma_eval_all_ok_agree(multipart_params(r), g1, g2);
}

proof fn lemma_trim_start_first(s: Seq<char>)
    ensures
        trim_start(s).len() > 0 ==> !is_white_space(trim_start(s)[0]),
    decreases s.len(),
{
    if s.len() > 0 && is_white_space(s[0]) {
        lemma_trim_start_first(s.drop_first());
    }
}

proof fn lemma_trim_end_prefix(t: Seq<char>)
    ensures
        trim_end(t).len() <= t.len(),
        trim_end(t) == t.subrange(0, trim_end(t).len() as int),
        trim_end(t).len() > 0 ==> !is_white_space(trim_end(t).last()),
    decreases t.len(),
{
    if t.len() > 0 && is_white_space(t.last()) {
        lemma_trim_end_prefix(t.drop_last());
        assert(trim_end(t) =~= t.subrange(0, trim_end(t).len() as int));
    } else {
        assert(t.subrange(0, t.len() as int) =~= t);
    }
}

/// Trimming leaves neither leading nor trailing white space, and trimming
/// again changes nothing.
pub proof fn law_trim_leaves_no_surrounding_white_space(s: Seq<char>)
    ensures
        spec_trim(s).len() > 0 ==> !is_white_space(spec_trim(s)[0]) && !is_white_space(
            spec_trim(s).last(),
        ),
        spec_trim(spec_trim(s)) == spec_trim(s),
{
    let u = trim_start(s);
    let t = spec_trim(s);
    lemma_trim_start_first(s);
    lemma_trim_end_prefix(u);
    if t.len() > 0 {
        assert(t[0] == u[0]);
        assert(trim_start(t) == t);
        assert(trim_end(t) == t);
    } else {
        assert(trim_start(t) == t);
        assert(trim_end(t) == t);
    }
}

/// The cookie a comment stores has no surrounding white space.
pub proof fn law_stored_cookie_is_trimmed(comment: Seq<char>)
    ensures
        stored_cookie(comment).len() > 0 ==> !is_white_space(stored_cookie(comment)[0])
            && !is_white_space(stored_cookie(comment).last()),
{
    let b = vstd::utf8::encode_utf8(comment);
    law_trim_leaves_no_surrounding_white_space(
        vstd::utf8::decode_utf8(b.subrange(crate::request::cookie_set_offset(), b.len() as int)),
    );
}

/// A successful evaluation gives one header per header entry, one query
/// parameter per query entry, one form parameter per form entry, one
/// multipart parameter per multipart entry and one cookie per cookie entry.
pub proof fn law_eval_keeps_counts(
    r: Request,
    vars: Map<Seq<char>, Value>,
    dir: Seq<char>,
    files: Map<Seq<char>, FileRead>,
)
    ensures
        eval_request(r, vars, dir, files) matches Ok(v) ==> {
            &&& v.headers.len() == r.headers@.len()
            &&& v.querystring.len() == crate::request::query_params(r).len()
            &&& v.form.len() == crate::request::form_params(r).len()
            &&& v.multipart.len() == multipart_params(r).len()
            &&& v.cookies.len() == crate::request::cookies(r).len()
        },
{
    lemma_eval_all_len(r.headers@, pair_fn(vars));
    lemma_eval_all_len(crate::request::query_params(r), pair_fn(vars));
    lemma_eval_all_len(crate::request::form_params(r), pair_fn(vars));
    lemma_eval_all_len(multipart_params(r), multipart_fn(vars, dir, files));
}

/// A request that evaluates with at least one form parameter announces a
/// url-encoded form, whatever else it holds.
pub proof fn law_form_announces_urlencoded(
    r: Request,
    vars: Map<Seq<char>, Value>,
    dir: Seq<char>,
    files: Map<Seq<char>, FileRead>,
)
    ensures
        eval_request(r, vars, dir, files) matches Ok(v) ==> (v.form.len() > 0
            ==> v.content_type == Some("application/x-www-form-urlencoded"@)),
        eval_request(r, vars, dir, files) matches Ok(v) ==> (crate::request::form_params(r).len()
            > 0 ==> v.content_type == Some("application/x-www-form-urlencoded"@)),
{
    lemma_eval_all_len(crate::request::form_params(r), pair_fn(vars));
}

/// The implicit content type of an evaluated request: a form announces a
/// url-encoded form; else a multipart form announces multipart form data;
/// else only a JSON body announces JSON, and any other request announces
/// nothing.
pub proof fn law_implicit_content_type(
    r: Request,
    vars: Map<Seq<char>, Value>,
    dir: Seq<char>,
    files: Map<Seq<char>, FileRead>,
)
    ensures
        eval_request(r, vars, dir, files) matches Ok(v) ==> {
            &&& (v.form.len() == 0 && v.multipart.len() > 0) ==> v.content_type == Some(
                "multipart/form-data"@,
            )
            &&& (v.content_type == Some("application/json"@) <==> (v.form.len() == 0
                && v.multipart.len() == 0 && (r.body matches Some(b) && b.value is Json)))
            &&& (v.content_type is None <==> (v.form.len() == 0 && v.multipart.len() == 0 && !(
            r.body matches Some(b) && b.value is Json)))
        },
{
    reveal_strlit("application/json");
    reveal_strlit("multipart/form-data");
    reveal_strlit("application/x-www-form-urlencoded");
    assert("application/json"@.len() != "multipart/form-data"@.len());
    assert("application/json"@.len() != "application/x-www-form-urlencoded"@.len());
}

/// An evaluated file parameter keeps its key as its name and its file name
/// as written, takes the written content type where one is given, and holds
/// the bytes stored for the file: a relative name is looked up under the
/// context directory with the whole name appended, an absolute one as it
/// is. Where nothing is stored there, the error names that path.
pub proof fn law_file_param_reads_named_file(
    p: crate::ast::FileParam,
    dir: Seq<char>,
    files: Map<Seq<char>, FileRead>,
)
    ensures
        ({
            let name = p.value.filename.value@;
            let path = if name.len() > 0 && name[0] == '/' {
                name
            } else if dir.len() == 0 || dir.last() == '/' {
                dir + name
            } else {
                dir + seq!['/'] + name
            };
            &&& crate::multipart::eval_file_param(p, dir, files) matches Ok(v) ==> {
                &&& v.name == p.key.value@
                &&& v.filename == name
                &&& (p.value.content_type matches Some(c) ==> v.content_type == c@)
                &&& files.contains_key(path)
                &&& files[path] matches FileRead::Content(d) && d@ == v.data
            }
            &&& !files.contains_key(path) ==> crate::multipart::eval_file_param(p, dir, files)
                == Err::<crate::http::FileParamView, ErrorView>(
                ErrorView {
                    source_info: p.value.filename.source_info,
                    inner: crate::error::RunnerErrorView::FileReadAccess { value: path },
                    assert: false,
                },
            )
        }),
{
}

/// A written content type wins over the one the file name's extension
/// implies.
pub proof fn law_written_content_type_wins(v: crate::ast::FileValue)
    ensures
        v.content_type matches Some(c) ==> crate::multipart::file_content_type(v) == c@,
{
}

/// A relative name resolves to the directory with the whole name appended,
/// with one separator between them where the directory does not end with
/// one; an absolute name resolves to itself. Either way the result ends
/// with the name as written.
pub proof fn law_resolve_keeps_whole_name(dir: Seq<char>, name: Seq<char>)
    ensures
        name.len() > 0 && name[0] == '/' ==> resolve_path(dir, name) == name,
        !(name.len() > 0 && name[0] == '/') && (dir.len() == 0 || dir.last() == '/')
            ==> resolve_path(dir, name) == dir + name,
        !(name.len() > 0 && name[0] == '/') && !(dir.len() == 0 || dir.last() == '/')
            ==> resolve_path(dir, name) == dir + seq!['/'] + name,
        resolve_path(dir, name).len() >= name.len(),
        resolve_path(dir, name).subrange(
            resolve_path(dir, name).len() - name.len(),
            resolve_path(dir, name).len() as int,
        ) == name,
{
    let r = resolve_path(dir, name);
    assert(r.subrange(r.len() - name.len(), r.len() as int) =~= name);
}

/// A header whose name is ASCII text names the content type exactly when
/// the name is `content-type` with any of its letters written as capitals:
/// each character is the one of `content-type` at its place, or the capital
/// of that letter.
pub proof fn law_content_type_name_any_ascii_case(kv: crate::ast::KeyValue)
    ensures
        vstd::utf8::is_ascii_chars(kv.key.value@) ==> ((crate::request::content_type_header_fn())(kv)
            <==> (kv.key.value@.len() == "content-type"@.len() && forall|i: int|
            0 <= i < kv.key.value@.len() ==> #[trigger] kv.key.value@[i] == "content-type"@[i] || (
            'A' <= kv.key.value@[i] <= 'Z' && kv.key.value@[i] as int + 32 == "content-type"@[i]
                as int))),
{
    reveal_strlit("content-type");
    let key = kv.key.value@;
    let t = "content-type"@;
    if vstd::utf8::is_ascii_chars(key) {
        let low = crate::request::ascii_lower(key);
        if low == t {
            assert forall|i: int| 0 <= i < key.len() implies #[trigger] key[i] == t[i] || (
            'A' <= key[i] <= 'Z' && key[i] as int + 32 == t[i] as int) by {
                assert(low[i] == t[i]);
            }
        }
        if key.len() == t.len() && forall|i: int|
            0 <= i < key.len() ==> #[trigger] key[i] == t[i] || ('A' <= key[i] <= 'Z' && key[i]
                as int + 32 == t[i] as int) {
            assert forall|i: int| 0 <= i < key.len() implies low[i] == t[i] by {
                assert(key[i] == t[i] || ('A' <= key[i] <= 'Z' && key[i] as int + 32 == t[i] as int));
                assert(!('A' <= t[i] <= 'Z'));
            }
            assert(low =~= t);
        }
    }
}

/// A collection that succeeds holds, at each place, the result of the
/// function on the element at that place.
proof fn lemma_eval_all_elements<A, B>(xs: Seq<A>, f: spec_fn(A) -> Result<B, ErrorView>)
    ensures
        eval_all(xs, f) matches Ok(bs) ==> bs.len() == xs.len() && forall|i: int|
            0 <= i < xs.len() ==> f(#[trigger] xs[i]) == Ok::<B, ErrorView>(bs[i]),
    decreases xs.len(),
{
    if xs.len() > 0 {
        let t = xs.drop_last();
        lemma_eval_all_elements(t, f);
        if let Ok(bs) = eval_all(xs, f) {
            assert forall|i: int| 0 <= i < xs.len() implies f(#[trigger] xs[i]) == Ok::<
                B,
                ErrorView,
            >(bs[i]) by {
                if i < xs.len() - 1 {
                    assert(xs[i] == t[i]);
                }
            }
        }
    }
}

/// In a successful evaluation, the header, query parameter and form
/// parameter at each place carry the key of the entry at that place and
/// the text of its template; the multipart parameter at each place is the
/// evaluation of the entry at that place.
pub proof fn law_eval_pairs_in_place(
    r: Request,
    vars: Map<Seq<char>, Value>,
    dir: Seq<char>,
    files: Map<Seq<char>, FileRead>,
)
    ensures
        eval_request(r, vars, dir, files) matches Ok(v) ==> {
            &&& forall|i: int|
                0 <= i < r.headers@.len() ==> v.headers[i].name == (#[trigger] r.headers@[i]).key.value@
                    && crate::template::eval_template(r.headers@[i].value@, vars) == Ok::<
                    Seq<char>,
                    ErrorView,
                >(v.headers[i].value)
            &&& forall|i: int|
                0 <= i < crate::request::query_params(r).len() ==> v.querystring[i].name == (
                #[trigger] crate::request::query_params(r)[i]).key.value@
                    && crate::template::eval_template(
                    crate::request::query_params(r)[i].value@,
                    vars,
                ) == Ok::<Seq<char>, ErrorView>(v.querystring[i].value)
            &&& forall|i: int|
                0 <= i < crate::request::form_params(r).len() ==> v.form[i].name == (
                #[trigger] crate::request::form_params(r)[i]).key.value@
                    && crate::template::eval_template(
                    crate::request::form_params(r)[i].value@,
                    vars,
                ) == Ok::<Seq<char>, ErrorView>(v.form[i].value)
            &&& forall|i: int|
                0 <= i < multipart_params(r).len()
                    ==> crate::multipart::eval_multipart_param(
                    #[trigger] multipart_params(r)[i],
                    vars,
                    dir,
                    files,
                ) == Ok::<crate::http::MultipartParamView, ErrorView>(v.multipart[i])
        },
{
    lemma_eval_all_elements(r.headers@, pair_fn(vars));
    lemma_eval_all_elements(crate::request::query_params(r), pair_fn(vars));
    lemma_eval_all_elements(crate::request::form_params(r), pair_fn(vars));
    lemma_eval_all_elements(multipart_params(r), multipart_fn(vars, dir, files));
    if let Ok(v) = eval_request(r, vars, dir, files) {
        assert forall|i: int| 0 <= i < r.headers@.len() implies v.headers[i].name == (
        #[trigger] r.headers@[i]).key.value@ && crate::template::eval_template(
            r.headers@[i].value@,
            vars,
        ) == Ok::<Seq<char>, ErrorView>(v.headers[i].value) by {
            assert(pair_fn(vars)(r.headers@[i]) == Ok::<crate::http::PairView, ErrorView>(
                v.headers[i],
            ));
        }
        let q = crate::request::query_params(r);
        assert forall|i: int| 0 <= i < q.len() implies v.querystring[i].name == (
        #[trigger] q[i]).key.value@ && crate::template::eval_template(q[i].value@, vars) == Ok::<
            Seq<char>,
            ErrorView,
        >(v.querystring[i].value) by {
            assert(pair_fn(vars)(q[i]) == Ok::<crate::http::PairView, ErrorView>(
                v.querystring[i],
            ));
        }
        let fp = crate::request::form_params(r);
        assert forall|i: int| 0 <= i < fp.len() implies v.form[i].name == (
        #[trigger] fp[i]).key.value@ && crate::template::eval_template(fp[i].value@, vars) == Ok::<
            Seq<char>,
            ErrorView,
        >(v.form[i].value) by {
            assert(pair_fn(vars)(fp[i]) == Ok::<crate::http::PairView, ErrorView>(v.form[i]));
        }
    }
}

} // verus!
