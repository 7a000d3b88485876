//! One way of calling a command: its call, parameters, return and versions.
use vstd::prelude::*;

use crate::call::{Call, CallModel};
use crate::command::Locality;
use crate::param::{Param, ParamModel};
use crate::return_type::{Return, ReturnView};
use crate::since::{Since, SinceView};
use crate::value::opt_since;

verus! {

/// A syntax of a command.
#[derive(Debug, PartialEq, Eq)]
pub struct Syntax {
    call: Call,
    ret: Return,
    left: Option<Param>,
    right: Option<Param>,
    since: Option<Since>,
    effect: Option<Locality>,
}

/// The contents of a `Syntax`.
pub struct SyntaxView {
    pub call: CallModel,
    pub ret: ReturnView,
    pub left: Option<ParamModel>,
    pub right: Option<ParamModel>,
    pub since: Option<SinceView>,
    pub effect: Option<Locality>,
}

/// The view of an optional parameter.
pub open spec fn opt_param(p: Option<Param>) -> Option<ParamModel> {
    match p {
        Some(x) => Some(x@),
        None => None,
    }
}

impl View for Syntax {
    type V = SyntaxView;

    closed spec fn view(&self) -> SyntaxView {
        SyntaxView {
            call: self.call@,
            ret: self.ret@,
            left: opt_param(self.left),
            right: opt_param(self.right),
            since: opt_since(self.since),
            effect: self.effect,
        }
    }
}

impl Syntax {
    pub fn new(
        call: Call,
        ret: Return,
        left: Option<Param>,
        right: Option<Param>,
        since: Option<Since>,
        effect: Option<Locality>,
    ) -> (r: Self)
        ensures
            r@ == (SyntaxView {
                call: call@,
                ret: ret@,
                left: opt_param(left),
                right: opt_param(right),
                since: opt_since(since),
                effect,
            }),
    {
        Syntax { call, ret, left, right, since, effect }
    }

    /// No parameter on either side.
    pub fn is_nular(&self) -> (r: bool)
        ensures
            r == (self@.left is None && self@.right is None),
    {
        self.left.is_none() && self.right.is_none()
    }

    /// A parameter on exactly one side.
    pub fn is_unary(&self) -> (r: bool)
        ensures
            r == ((self@.left is None) != (self@.right is None)),
    {
        self.left.is_none() != self.right.is_none()
    }

    /// A parameter on each side.
    pub fn is_binary(&self) -> (r: bool)
        ensures
            r == (self@.left is Some && self@.right is Some),
    {
        self.left.is_some() && self.right.is_some()
    }

    pub fn call(&self) -> (r: &Call)
        ensures
            r@ == self@.call,
    {
        &self.call
    }

    pub fn ret(&self) -> (r: &Return)
        ensures
            r@ == self@.ret,
    {
        &self.ret
    }

    pub fn right(&self) -> (r: Option<&Param>)
        ensures
            match r {
                Some(p) => self@.right == Some(p@),
                None => self@.right is None,
            },
    {
        match &self.right {
            Some(p) => Some(p),
            None => None,
        }
    }

    pub fn left(&self) -> (r: Option<&Param>)
        ensures
            match r {
                Some(p) => self@.left == Some(p@),
                None => self@.left is None,
            },
    {
        match &self.left {
            Some(p) => Some(p),
            None => None,
        }
    }

    pub fn since(&self) -> (r: Option<&Since>)
        ensures
            match r {
                Some(s) => self@.since == Some(s@),
                None => self@.since is None,
            },
    {
        match &self.since {
            Some(s) => Some(s),
            None => None,
        }
    }

    /// Where the syntax's effect shows, if the wiki says.
    pub fn effect(&self) -> (r: Option<&Locality>)
        ensures
            match r {
                Some(l) => self@.effect == Some(*l),
                None => self@.effect is None,
            },
    {
        match &self.effect {
            Some(l) => Some(l),
            None => None,
        }
    }

    /// The syntax's `Since`, made empty first where it had none.
    pub fn since_mut(&mut self) -> (r: &mut Since)
        ensures
            r@ == match old(self)@.since {
                Some(s) => s,
                None => SinceView::none(),
            },
            final(self)@ == (SyntaxView { since: Some(final(r)@), ..old(self)@ }),
    {
        self.since.get_or_insert(Since::empty())
    }

    pub fn set_ret(&mut self, ret: Return)
        ensures
            final(self)@ == (SyntaxView { ret: ret@, ..old(self)@ }),
    {
        self.ret = ret;
    }

    pub fn set_left(&mut self, left: Option<Param>)
        ensures
            final(self)@ == (SyntaxView { left: opt_param(left), ..old(self)@ }),
    {
        self.left = left;
    }

    pub fn set_right(&mut self, right: Option<Param>)
        ensures
            final(self)@ == (SyntaxView { right: opt_param(right), ..old(self)@ }),
    {
        self.right = right;
    }

    pub fn set_since(&mut self, since: Option<Since>)
        ensures
            final(self)@ == (SyntaxView { since: opt_since(since), ..old(self)@ }),
    {
        self.since = since;
    }
}

} // verus!
