//! The result of validating a payload: the names of the fields that failed.
use crate::patterns::str_eq;
use vstd::prelude::*;

verus! {

/// The names of the fields of a payload that failed validation, in the
/// order the fields are declared. A failure inside an embedded record is
/// reported under the name of the embedding field.
#[derive(Debug, PartialEq, Eq)]
pub struct ValidationErrors {
    pub keys: Vec<String>,
}

impl ValidationErrors {
    /// The failing field names as sequences of characters.
    pub open spec fn keys_view(&self) -> Seq<Seq<char>> {
        Seq::new(self.keys@.len(), |i: int| self.keys@[i]@)
    }

    /// An empty error set.
    pub fn new() -> (r: ValidationErrors)
        ensures
            r.keys_view() == Seq::<Seq<char>>::empty(),
    {
        let r = ValidationErrors { keys: Vec::new() };
        proof {
            assert(r.keys_view() =~= Seq::<Seq<char>>::empty());
        }
        r
    }

    /// Records that the field named `key` failed.
    pub fn add(&mut self, key: &str)
        ensures
            final(self).keys_view() == old(self).keys_view().push(key@),
    {
        self.keys.push(key.to_owned());
        proof {
            assert(final(self).keys_view() =~= old(self).keys_view().push(key@));
        }
    }

    /// The errors, for inspection by the caller.
    pub fn errors(&self) -> (r: &ValidationErrors)
        ensures
            r == self,
    {
        self
    }

    /// Whether the field named `key` is among the failures.
    pub fn contains_key(&self, key: &str) -> (r: bool)
        ensures
            r == self.keys_view().contains(key@),
    {
        let n = self.keys.len();
        let mut i: usize = 0;
        while i < n
            invariant
                i <= n == self.keys@.len(),
                forall|k: int| 0 <= k < i ==> self.keys_view()[k] != key@,
            decreases n - i,
        {
            if str_eq(self.keys[i].as_str(), key) {
                assert(self.keys_view()[i as int] == key@);
                return true;
            }
            i = i + 1;
        }
        proof {
            if self.keys_view().contains(key@) {
                let w = choose|w: int| 0 <= w < self.keys_view().len() && self.keys_view()[w]
                    == key@;
            }
        }
        false
    }

    /// Whether no field failed.
    pub fn is_empty(&self) -> (r: bool)
        ensures
            r == (self.keys_view().len() == 0),
    {
        self.keys.len() == 0
    }
}

} // verus!
