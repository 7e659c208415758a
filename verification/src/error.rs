//! Errors raised while a request entry is evaluated.
use vstd::prelude::*;
use crate::ast::SourceInfo;

verus! {

#[derive(Clone, Debug, PartialEq, Eq)]
pub enum RunnerError {
    /// A template names a variable that has no value.
    TemplateVariableNotDefined { name: String },
    /// A file could not be read.
    FileReadAccess { value: String },
}

/// An evaluation error, located at the source text that caused it.
#[derive(Clone, Debug, PartialEq, Eq)]
pub struct Error {
    pub source_info: SourceInfo,
    pub inner: RunnerError,
    pub assert: bool,
}

pub enum RunnerErrorView {
    TemplateVariableNotDefined { name: Seq<char> },
    FileReadAccess { value: Seq<char> },
}

pub struct ErrorView {
    pub source_info: SourceInfo,
    pub inner: RunnerErrorView,
    pub assert: bool,
}

impl View for RunnerError {
    type V = RunnerErrorView;

    open spec fn view(&self) -> RunnerErrorView {
        match self {
            RunnerError::TemplateVariableNotDefined { name } =>
                RunnerErrorView::TemplateVariableNotDefined { name: name@ },
            RunnerError::FileReadAccess { value } => RunnerErrorView::FileReadAccess {
                value: value@,
            },
        }
    }
}

impl View for Error {
    type V = ErrorView;

    open spec fn view(&self) -> ErrorView {
        ErrorView { source_info: self.source_info, inner: self.inner@, assert: self.assert }
    }
}

/// A result of evaluation, taken by the views of its two sides.
pub open spec fn result_view<T: View>(r: Result<T, Error>) -> Result<T::V, ErrorView> {
    match r {
        Ok(t) => Ok(t@),
        Err(e) => Err(e@),
    }
}

} // verus!
