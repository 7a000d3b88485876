//! Game branches that a command can be restricted to.
use vstd::prelude::*;

use crate::text::{chars_of, eq, message};

verus! {

#[derive(Clone, Copy, Debug, PartialEq, Eq)]
pub enum Branch {
    Stable,
    Dev,
    Diag,
    DiagProf,
}

/// The wiki's name of a branch.
pub open spec fn branch_text(b: Branch) -> Seq<char> {
    match b {
        Branch::Stable => "stable"@,
        Branch::Dev => "dev"@,
        Branch::Diag => "diag"@,
        Branch::DiagProf => "diag prof"@,
    }
}

/// The branch that a wiki name stands for, or the message of an unknown name.
pub open spec fn branch_of_text(s: Seq<char>) -> Result<Branch, Seq<char>> {
    if s == "stable"@ {
        Ok(Branch::Stable)
    } else if s == "dev"@ {
        Ok(Branch::Dev)
    } else if s == "diag"@ {
        Ok(Branch::Diag)
    } else if s == "diag prof"@ {
        Ok(Branch::DiagProf)
    } else {
        Err("Unknown branch: "@ + s)
    }
}

impl Branch {
    pub fn as_str(&self) -> (r: &'static str)
        ensures
            r@ == branch_text(*self),
    {
        match self {
            Self::Stable => "stable",
            Self::Dev => "dev",
            Self::Diag => "diag",
            Self::DiagProf => "diag prof",
        }
    }

    pub fn parse(s: &str) -> (r: Result<Self, String>)
        ensures
            match r {
                Ok(b) => branch_of_text(s@) == Ok::<Branch, Seq<char>>(b),
                Err(e) => branch_of_text(s@) == Err::<Branch, Seq<char>>(e@),
            },
    {
        let c = chars_of(s);
        if eq(&c, &chars_of("stable")) {
            Ok(Self::Stable)
        } else if eq(&c, &chars_of("dev")) {
            Ok(Self::Dev)
        } else if eq(&c, &chars_of("diag")) {
            Ok(Self::Diag)
        } else if eq(&c, &chars_of("diag prof")) {
            Ok(Self::DiagProf)
        } else {
            Err(message("Unknown branch: ", &c))
        }
    }
}

/// Reading back the name of a branch gives the branch.
pub proof fn lemma_branch_round_trip(b: Branch)
    ensures
        branch_of_text(branch_text(b)) == Ok::<Branch, Seq<char>>(b),
{
    reveal_strlit("stable");
    reveal_strlit("dev");
    reveal_strlit("diag");
    reveal_strlit("diag prof");
    assert("dev"@.len() != "stable"@.len());
    assert("diag"@.len() != "stable"@.len());
    assert("diag prof"@.len() != "stable"@.len());
    assert("diag"@.len() != "dev"@.len());
    assert("diag prof"@.len() != "dev"@.len());
    assert("diag prof"@.len() != "diag"@.len());
}

} // verus!
