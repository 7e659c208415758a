//! Evaluation of templates against variables.
use vstd::prelude::*;
use crate::ast::{ElementView, Template, TemplateElement, TemplateView};
use crate::error::{Error, ErrorView, RunnerError, RunnerErrorView, result_view};
use crate::value::{Value, Variables, render, render_value};

verus! {

/// The text of one element: its own text, or the text of the variable it
/// names; an undefined variable is an error located at the variable.
pub open spec fn eval_element(e: ElementView, vars: Map<Seq<char>, Value>) -> Result<
    Seq<char>,
    ErrorView,
> {
    match e {
        ElementView::Text { value, .. } => Ok(value),
        ElementView::Expression { name, source_info, .. } => if vars.contains_key(name) {
            Ok(render(vars[name]))
        } else {
            Err(
                ErrorView {
                    source_info,
                    inner: RunnerErrorView::TemplateVariableNotDefined { name },
                    assert: false,
                },
            )
        },
    }
}

/// The texts of the elements, in order, joined; or the error of the first
/// element that fails.
pub open spec fn eval_elements(es: Seq<ElementView>, vars: Map<Seq<char>, Value>) -> Result<
    Seq<char>,
    ErrorView,
>
    decreases es.len(),
{
    if es.len() == 0 {
        Ok(Seq::empty())
    } else {
        match eval_elements(es.drop_last(), vars) {
            Err(e) => Err(e),
            Ok(s) => match eval_element(es.last(), vars) {
                Ok(t) => Ok(s + t),
                Err(e) => Err(e),
            },
        }
    }
}

/// The text a template stands for under `vars`.
pub open spec fn eval_template(t: TemplateView, vars: Map<Seq<char>, Value>) -> Result<
    Seq<char>,
    ErrorView,
> {
    eval_elements(t.elements, vars)
}

fn eval_one(e: &TemplateElement, variables: &Variables) -> (r: Result<String, Error>)
    ensures
        result_view(r) == eval_element(e@, variables@),
{
    match e {
        TemplateElement::String { value, .. } => Ok(value.clone()),
        TemplateElement::Expression(x) => match variables.get(x.variable.name.as_str()) {
            Some(v) => Ok(render_value(v)),
            None => Err(
                Error {
                    source_info: x.variable.source_info,
                    inner: RunnerError::TemplateVariableNotDefined {
                        name: x.variable.name.clone(),
                    },
                    assert: false,
                },
            ),
        },
    }
}

impl Template {
    /// The text this template stands for under `variables`.
    pub fn eval(&self, variables: &Variables) -> (r: Result<String, Error>)
        ensures
            result_view(r) == eval_template(self@, variables@),
    {
        let ghost es = self@.elements;
        let mut value = String::new();
        let mut i: usize = 0;
        while i < self.elements.len()
            invariant
                i <= self.elements@.len(),
                es == self@.elements,
                es.len() == self.elements@.len(),
                eval_elements(es.subrange(0, i as int), variables@) == Ok::<
                    Seq<char>,
                    ErrorView,
                >(value@),
            decreases self.elements@.len() - i,
        {
            let r = eval_one(&self.elements[i], variables);
            assert(es.subrange(0, i + 1).drop_last() =~= es.subrange(0, i as int));
            assert(es.subrange(0, i + 1).last() == self.elements@[i as int]@);
            match r {
                Ok(s) => {
                    value.append(s.as_str());
                },
                Err(e) => {
                    proof {
                        lemma_error_persists(es, variables@, i as int + 1);
                    }
                    return Err(e);
                },
            }
            i = i + 1;
        }
        assert(es.subrange(0, i as int) =~= es);
        Ok(value)
    }
}

/// Once a prefix of the elements fails, every longer prefix fails the same
/// way.
proof fn lemma_error_persists(es: Seq<ElementView>, vars: Map<Seq<char>, Value>, i: int)
    requires
        0 <= i <= es.len(),
        eval_elements(es.subrange(0, i), vars) is Err,
    ensures
        eval_elements(es, vars) == eval_elements(es.subrange(0, i), vars),
    decreases es.len() - i,
{
    if i < es.len() {
        let next = es.subrange(0, i + 1);
        assert(next.drop_last() =~= es.subrange(0, i));
        lemma_error_persists(es, vars, i + 1);
    } else {
        assert(es.subrange(0, i) =~= es);
    }
}

} // verus!
