//! BMC user accounts.

use vstd::prelude::*;

use std::cmp::Ordering;
use vstd::std_specs::cmp::PartialEqSpecImpl;

use crate::text;

verus! {

/// A user account of the BMC. Accounts are the same, and are ordered, by id.
#[derive(Debug, Clone)]
pub struct ManagerAccount {
    pub id: String,
    pub username: String,
    pub name: String,
    pub description: String,
    pub role_id: String,
    pub enabled: bool,
    pub locked: bool,
}

impl PartialEq for ManagerAccount {
    fn eq(&self, other: &ManagerAccount) -> (r: bool) {
        text::str_eq(self.id.as_str(), other.id.as_str())
    }
}

impl PartialEqSpecImpl for ManagerAccount {
    open spec fn obeys_eq_spec() -> bool {
        true
    }

    open spec fn eq_spec(&self, other: &ManagerAccount) -> bool {
        self.id@ == other.id@
    }
}

impl ManagerAccount {
    /// Orders accounts by id.
    pub fn cmp(&self, other: &Self) -> (r: Ordering)
        ensures
            (r == Ordering::Less) == text::lex_lt(self.id@, other.id@),
            (r == Ordering::Equal) == (self.id@ == other.id@),
            (r == Ordering::Greater) == text::lex_lt(other.id@, self.id@),
    {
        text::compare(self.id.as_str(), other.id.as_str())
    }

    /// Orders accounts by id; always comparable.
    pub fn partial_cmp(&self, other: &Self) -> (r: Option<Ordering>)
        ensures
            r matches Some(o) && (o == Ordering::Less) == text::lex_lt(self.id@, other.id@) && (o
                == Ordering::Equal) == (self.id@ == other.id@) && (o == Ordering::Greater)
                == text::lex_lt(other.id@, self.id@),
    {
        Some(self.cmp(other))
    }
}

} // verus!
