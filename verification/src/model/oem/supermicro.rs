//! Supermicro extensions.

use vstd::prelude::*;

use crate::text;

verus! {

/// The IPMI privilege level of the KCS (host to BMC) interface.
#[derive(Clone, Copy, Debug, PartialEq, Eq, Structural)]
pub enum Privilege {
    Administrator,
    Operator,
    User,
    Callback,
}

impl Privilege {
    pub open spec fn text(self) -> Seq<char> {
        match self {
            Privilege::Administrator => "Administrator"@,
            Privilege::Operator => "Operator"@,
            Privilege::User => "User"@,
            Privilege::Callback => "Callback"@,
        }
    }

    /// The privilege a name stands for.
    pub open spec fn parse_text(s: Seq<char>) -> Option<Privilege> {
        if s == "Administrator"@ {
            Some(Privilege::Administrator)
        } else if s == "Operator"@ {
            Some(Privilege::Operator)
        } else if s == "User"@ {
            Some(Privilege::User)
        } else if s == "Callback"@ {
            Some(Privilege::Callback)
        } else {
            None
        }
    }

    /// The name of the privilege.
    pub fn to_string(&self) -> (r: String)
        ensures
            r@ == self.text(),
    {
        match self {
            Privilege::Administrator => "Administrator".to_string(),
            Privilege::Operator => "Operator".to_string(),
            Privilege::User => "User".to_string(),
            Privilege::Callback => "Callback".to_string(),
        }
    }

    /// The privilege a name stands for, if any.
    pub fn from_str(s: &str) -> (r: Option<Privilege>)
        ensures
            r == Self::parse_text(s@),
    {
        if text::str_eq(s, "Administrator") {
            Some(Privilege::Administrator)
        } else if text::str_eq(s, "Operator") {
            Some(Privilege::Operator)
        } else if text::str_eq(s, "User") {
            Some(Privilege::User)
        } else if text::str_eq(s, "Callback") {
            Some(Privilege::Callback)
        } else {
            None
        }
    }
}

/// A privilege reads back from its name, and a name that reads as a privilege
/// is that privilege's name.
pub proof fn lemma_privilege_round_trip(p: Privilege, s: Seq<char>)
    ensures
        Privilege::parse_text(p.text()) == Some(p),
        Privilege::parse_text(s) == Some(p) ==> p.text() == s,
{
    reveal_strlit("Administrator");
    reveal_strlit("Operator");
    reveal_strlit("User");
    reveal_strlit("Callback");
    assert("Administrator"@.len() != "Operator"@.len());
    assert("Administrator"@.len() != "User"@.len());
    assert("Administrator"@.len() != "Callback"@.len());
    assert("Operator"@.len() != "User"@.len());
    assert("Operator"@[0] != "Callback"@[0]);
    assert("User"@.len() != "Callback"@.len());
}

/// Each privilege is named as IPMI names it, and distinct privileges have
/// distinct names.
pub proof fn lemma_privilege_names(p: Privilege, q: Privilege)
    ensures
        Privilege::Administrator.text() == "Administrator"@,
        Privilege::Operator.text() == "Operator"@,
        Privilege::User.text() == "User"@,
        Privilege::Callback.text() == "Callback"@,
        p.text() == q.text() ==> p == q,
{
    lemma_privilege_round_trip(p, q.text());
    lemma_privilege_round_trip(q, q.text());
}

} // verus!
