//! Visibility of a generated accessor: public, scoped-public, or private.

use vstd::prelude::*;
use vstd::string::*;

use crate::model::DeriveError;
use crate::text::str_eq;

verus! {

/// The three recognized restriction scopes of a scoped-public accessor.
#[derive(Clone, Copy, Debug, PartialEq, Eq, Structural)]
pub enum PubScope {
    Crate,
    Super,
    Self_,
}

impl PubScope {
    /// The scope keyword exactly as it is spelled inside `pub(...)`.
    pub open spec fn spec_text(self) -> Seq<char> {
        match self {
            PubScope::Crate => "crate"@,
            PubScope::Super => "super"@,
            PubScope::Self_ => "self"@,
        }
    }

    /// The scope keyword as a string.
    pub fn to_string(&self) -> (r: String)
        ensures
            r@ == self.spec_text(),
    {
        match self {
            PubScope::Crate => String::from_str("crate"),
            PubScope::Super => String::from_str("super"),
            PubScope::Self_ => String::from_str("self"),
        }
    }

    /// The scope named by `s`, if `s` is one of the three recognized
    /// spellings; any other spelling is a fatal configuration error.
    pub open spec fn spec_from_str(s: Seq<char>) -> Result<PubScope, DeriveError> {
        if s == "crate"@ {
            Ok(PubScope::Crate)
        } else if s == "super"@ {
            Ok(PubScope::Super)
        } else if s == "self"@ {
            Ok(PubScope::Self_)
        } else {
            Err(DeriveError::UnknownScope)
        }
    }

    /// Parse a scope spelling.
    pub fn from_str(s: &str) -> (r: Result<PubScope, DeriveError>)
        ensures
            r == PubScope::spec_from_str(s@),
    {
        if str_eq(s, "crate") {
            Ok(PubScope::Crate)
        } else if str_eq(s, "super") {
            Ok(PubScope::Super)
        } else if str_eq(s, "self") {
            Ok(PubScope::Self_)
        } else {
            Err(DeriveError::UnknownScope)
        }
    }
}

/// The resolved exposure level of one generated accessor.
#[derive(Clone, Copy, Debug, PartialEq, Eq, Structural)]
pub enum Visibility {
    Public,
    PublicScoped(PubScope),
    Private,
}

impl Visibility {
    /// The text that opens a generated signature: the visibility keyword and
    /// one trailing space, or nothing at all for a private accessor.
    pub open spec fn spec_prefix(self) -> Seq<char> {
        match self {
            Visibility::Public => "pub "@,
            Visibility::PublicScoped(PubScope::Crate) => "pub(crate) "@,
            Visibility::PublicScoped(PubScope::Super) => "pub(super) "@,
            Visibility::PublicScoped(PubScope::Self_) => "pub(self) "@,
            Visibility::Private => Seq::<char>::empty(),
        }
    }

    /// The visibility prefix of a generated signature.
    pub fn prefix(&self) -> (r: &'static str)
        ensures
            r@ == self.spec_prefix(),
    {
        match self {
            Visibility::Public => "pub ",
            Visibility::PublicScoped(PubScope::Crate) => "pub(crate) ",
            Visibility::PublicScoped(PubScope::Super) => "pub(super) ",
            Visibility::PublicScoped(PubScope::Self_) => "pub(self) ",
            Visibility::Private => {
                let r: &'static str = "";
                proof {
                    reveal_strlit("");
                    assert(r@ =~= Seq::<char>::empty());
                }
                r
            },
        }
    }
}

} // verus!
