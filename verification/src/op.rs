//! The operations an inscription can carry.

use crate::text::{concat, lowercase, str_eq, to_lowercase};
use vstd::prelude::*;

verus! {

/// Represents operations for inscribing data.
#[derive(Copy, Clone, Debug, PartialEq, Eq, Structural)]
pub enum Op {
    /// Deploy a new token.
    Deploy,
    /// Mint a new token.
    Mint,
    /// Transfer a token
    Transfer,
}

impl Op {
    /// The operation's name as it appears in an inscription.
    pub open spec fn name(self) -> Seq<char> {
        match self {
            Op::Deploy => "deploy"@,
            Op::Mint => "mint"@,
            Op::Transfer => "transfer"@,
        }
    }

    /// The operation that a lowercase name stands for, if any.
    pub open spec fn named(s: Seq<char>) -> Option<Op> {
        if s == "deploy"@ {
            Some(Op::Deploy)
        } else if s == "mint"@ {
            Some(Op::Mint)
        } else if s == "transfer"@ {
            Some(Op::Transfer)
        } else {
            None
        }
    }

    /// The message with which a name that stands for no operation is rejected.
    pub open spec fn invalid(s: Seq<char>) -> Seq<char> {
        "invalid operation: "@ + s
    }

    /// What parsing makes of a name that has already been lowercased.
    pub open spec fn parsed(s: Seq<char>, r: Result<Op, String>) -> bool {
        match r {
            Ok(op) => Op::named(s) == Some(op),
            Err(msg) => Op::named(s) is None && msg@ == Op::invalid(s),
        }
    }

    /// Returns true if the operation is `Deploy`.
    pub fn is_deploy(&self) -> (r: bool)
        ensures
            r == (*self == Op::Deploy),
    {
        matches!(self, Op::Deploy)
    }

    /// Returns true if the operation is `Mint`.
    pub fn is_mint(&self) -> (r: bool)
        ensures
            r == (*self == Op::Mint),
    {
        matches!(self, Op::Mint)
    }

    /// Returns true if the operation is `Transfer`.
    pub fn is_transfer(&self) -> (r: bool)
        ensures
            r == (*self == Op::Transfer),
    {
        matches!(self, Op::Transfer)
    }

    /// The operation's name: `deploy`, `mint` or `transfer`.
    pub fn as_str(&self) -> (s: &'static str)
        ensures
            s@ == self.name(),
    {
        match self {
            Op::Deploy => "deploy",
            Op::Mint => "mint",
            Op::Transfer => "transfer",
        }
    }

    /// The operation's name as an owned string.
    pub fn to_string(&self) -> (s: String)
        ensures
            s@ == self.name(),
    {
        self.as_str().to_owned()
    }

    /// Reads an operation from a name that is already lowercase. Any other
    /// text is rejected with a message that quotes it.
    pub fn from_lowercase(s: &str) -> (r: Result<Op, String>)
        ensures
            Op::parsed(s@, r),
    {
        if str_eq(s, "deploy") {
            Ok(Op::Deploy)
        } else if str_eq(s, "mint") {
            Ok(Op::Mint)
        } else if str_eq(s, "transfer") {
            Ok(Op::Transfer)
        } else {
            Err(concat("invalid operation: ", s))
        }
    }

    /// Reads an operation from its name, in any letter case: the text is
    /// lowercased first, and the error message quotes the lowercased text.
    pub fn from_str(s: &str) -> (r: Result<Op, String>)
        ensures
            Op::parsed(lowercase(s@), r),
    {
        let lower = to_lowercase(s);
        Op::from_lowercase(lower.as_str())
    }
}

impl std::str::FromStr for Op {
    type Err = String;

    /// Reads an operation from its name, as [`Op::from_str`] does.
    fn from_str(s: &str) -> (r: Result<Op, String>)
        ensures
            Op::parsed(lowercase(s@), r),
    {
        Op::from_str(s)
    }
}

/// The three names are different texts, so each operation is read back from
/// its own name.
pub proof fn lemma_name_round_trip(op: Op)
    ensures
        Op::named(op.name()) == Some(op),
{
    reveal_strlit("deploy");
    reveal_strlit("mint");
    reveal_strlit("transfer");
    assert("deploy"@.len() == 6);
    assert("mint"@.len() == 4);
    assert("transfer"@.len() == 8);
}

} // verus!
