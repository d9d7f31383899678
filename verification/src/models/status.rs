//! Lifecycle status of a mandate.
use vstd::prelude::*;

verus! {

/// Lifecycle state of a mandate. `NEW` is the state of a mandate that was
/// drafted but never activated; `DELETED` is a soft marker, not physical
/// deletion.
#[derive(Clone, Copy, Debug, Eq, PartialEq, Hash, Structural)]
pub enum Status {
    ACTIVE,
    DELETED,
    CANCELED,
    NEW,
}

impl Status {
    /// The wire name of this status.
    pub fn as_str(&self) -> (r: &'static str)
        ensures
            r@ == self.spec_name(),
    {
        proof {
            reveal_strlit("ACTIVE");
            reveal_strlit("DELETED");
            reveal_strlit("CANCELED");
            reveal_strlit("NEW");
        }
        match self {
            Status::ACTIVE => "ACTIVE",
            Status::DELETED => "DELETED",
            Status::CANCELED => "CANCELED",
            Status::NEW => "NEW",
        }
    }

    /// The wire name as a sequence of characters.
    pub open spec fn spec_name(&self) -> Seq<char> {
        match self {
            Status::ACTIVE => "ACTIVE"@,
            Status::DELETED => "DELETED"@,
            Status::CANCELED => "CANCELED"@,
            Status::NEW => "NEW"@,
        }
    }
}

impl Default for Status {
    /// A mandate starts out in the `NEW` state.
    fn default() -> (r: Status)
        ensures
            r == Status::NEW,
    {
        Status::NEW
    }
}

} // verus!
