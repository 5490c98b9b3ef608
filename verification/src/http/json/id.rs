//! JSON-RPC request identifiers.

use vstd::prelude::*;
use vstd::std_specs::cmp::PartialEqSpecImpl;

verus! {

/// Mathematical value of an [`Id`].
pub enum IdView {
    /// A numeric identifier.
    Number(u64),
    /// A textual identifier.
    String(Seq<char>),
    /// The identifier of a notification, for which no response is expected.
    Null,
}

/// An identifier established by the client to match a response with its request.
#[derive(Debug)]
pub enum Id {
    /// A numeric identifier.
    Number(u64),
    /// A textual identifier.
    String(String),
    /// The identifier of a notification, for which no response is expected.
    Null,
}

impl View for Id {
    type V = IdView;

    open spec fn view(&self) -> IdView {
        match self {
            Id::Number(n) => IdView::Number(*n),
            Id::String(s) => IdView::String(s@),
            Id::Null => IdView::Null,
        }
    }
}

impl Id {
    /// The identifier zero.
    pub fn zero() -> (id: Id)
        ensures
            id == Id::Number(0),
    {
        Id::Number(0)
    }

    /// Whether this is the identifier of a notification.
    pub fn is_null(&self) -> (null: bool)
        ensures
            null == (self@ is Null),
    {
        match self {
            Id::Null => true,
            _ => false,
        }
    }
}

impl Clone for Id {
    fn clone(&self) -> (copy: Self)
        ensures
            copy == *self,
    {
        match self {
            Id::Number(n) => Id::Number(*n),
            Id::String(s) => Id::String(s.clone()),
            Id::Null => Id::Null,
        }
    }
}

impl PartialEq for Id {
    fn eq(&self, other: &Self) -> (equal: bool) {
        match self {
            Id::Number(a) => match other {
                Id::Number(b) => *a == *b,
                _ => false,
            },
            Id::String(a) => match other {
                Id::String(b) => a.eq(b),
                _ => false,
            },
            Id::Null => match other {
                Id::Null => true,
                _ => false,
            },
        }
    }
}

impl PartialEqSpecImpl for Id {
    open spec fn obeys_eq_spec() -> bool {
        true
    }

    open spec fn eq_spec(&self, other: &Self) -> bool {
        self@ == other@
    }
}

impl Eq for Id {}

} // verus!
