//! The contents of the files a request entry refers to, as they were read.
use vstd::prelude::*;
use crate::ast::Filename;
use crate::error::{Error, ErrorView, RunnerError, RunnerErrorView};
use crate::path::{resolve, resolve_path};
use crate::value::Table;

verus! {

/// What reading one file gave: its bytes, or the news that the file was
/// opened and read but no longer exists.
#[derive(Clone, Debug, PartialEq, Eq)]
pub enum FileRead {
    Content(Vec<u8>),
    Vanished,
}

/// The outcome of reading each file, keyed by the file's path; a path that
/// has no entry could not be opened or read.
pub type FileStore = Table<FileRead>;

/// The bytes of the file `filename` names relative to `dir`, or the error
/// that reading it gives: where the file could not be read, the error names
/// the resolved path; where it vanished, the name as written.
pub open spec fn read_file(
    files: Map<Seq<char>, FileRead>,
    dir: Seq<char>,
    filename: Seq<char>,
    source_info: crate::ast::SourceInfo,
) -> Result<Seq<u8>, ErrorView> {
    let path = resolve_path(dir, filename);
    if files.contains_key(path) {
        match files[path] {
            FileRead::Content(data) => Ok(data@),
            FileRead::Vanished => Err(
                ErrorView {
                    source_info,
                    inner: RunnerErrorView::FileReadAccess { value: filename },
                    assert: false,
                },
            ),
        }
    } else {
        Err(
            ErrorView {
                source_info,
                inner: RunnerErrorView::FileReadAccess { value: path },
                assert: false,
            },
        )
    }
}

/// A copy of `v`.
pub fn copy_bytes(v: &Vec<u8>) -> (r: Vec<u8>)
    ensures
        r@ == v@,
{
    let mut r: Vec<u8> = Vec::new();
    let mut i: usize = 0;
    while i < v.len()
        invariant
            i <= v@.len(),
            r@ == v@.subrange(0, i as int),
        decreases v@.len() - i,
    {
        r.push(v[i]);
        i = i + 1;
        assert(r@ =~= v@.subrange(0, i as int));
    }
    assert(v@.subrange(0, i as int) =~= v@);
    r
}

/// The bytes of the file `filename` names relative to `context_dir`.
pub fn read_bytes(files: &FileStore, context_dir: &str, filename: &Filename) -> (r: Result<
    Vec<u8>,
    Error,
>)
    ensures
        match r {
            Ok(d) => read_file(files@, context_dir@, filename.value@, filename.source_info) == Ok::<
                Seq<u8>,
                ErrorView,
            >(d@),
            Err(e) => read_file(files@, context_dir@, filename.value@, filename.source_info)
                == Err::<Seq<u8>, ErrorView>(e@),
        },
{
    let path = resolve(context_dir, filename.value.as_str());
    match files.get(path.as_str()) {
        Some(FileRead::Content(data)) => Ok(copy_bytes(data)),
        Some(FileRead::Vanished) => Err(
            Error {
                source_info: filename.source_info,
                inner: RunnerError::FileReadAccess { value: filename.value.clone() },
                assert: false,
            },
        ),
        None => Err(
            Error {
                source_info: filename.source_info,
                inner: RunnerError::FileReadAccess { value: path },
                assert: false,
            },
        ),
    }
}

} // verus!
