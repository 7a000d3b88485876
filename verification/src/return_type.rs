//! What a syntax of a command returns.
use vstd::prelude::*;

use crate::value::{opt_text, Value, ValueModel};

verus! {

/// The type of what a syntax returns, with a description.
#[derive(Debug, PartialEq, Eq)]
pub struct Return {
    typ: Value,
    desc: Option<String>,
}

/// The contents of a `Return`.
pub struct ReturnView {
    pub typ: ValueModel,
    pub desc: Option<Seq<char>>,
}

impl View for Return {
    type V = ReturnView;

    closed spec fn view(&self) -> ReturnView {
        ReturnView { typ: self.typ@, desc: opt_text(self.desc) }
    }
}

impl Return {
    pub fn new(typ: Value, desc: Option<String>) -> (r: Self)
        ensures
            r@ == (ReturnView { typ: typ@, desc: opt_text(desc) }),
    {
        Return { typ, desc }
    }

    pub fn typ(&self) -> (r: &Value)
        ensures
            r@ == self@.typ,
    {
        &self.typ
    }

    pub fn description(&self) -> (r: Option<&str>)
        ensures
            match r {
                Some(d) => self@.desc == Some(d@),
                None => self@.desc is None,
            },
    {
        match &self.desc {
            Some(d) => Some(d.as_str()),
            None => None,
        }
    }

    /// A copy of the return description.
    pub fn copy(&self) -> (r: Self)
        ensures
            r@ == self@,
    {
        Return {
            typ: self.typ.copy(),
            desc: match &self.desc {
                Some(d) => Some(crate::text::string_of(&crate::text::chars_of(d.as_str()))),
                None => None,
            },
        }
    }
}

} // verus!
