//! A postal address embedded in profiles and creditors.
use crate::models::validation::ValidationErrors;
use crate::patterns::has_min_chars;
use vstd::prelude::*;

verus! {

/// A postal address. Every part must have at least two characters to be
/// accepted by validation. Two addresses are equal when all their parts
/// hold the same text.
#[derive(Debug)]
pub struct Address {
    pub street: String,
    pub house_number: String,
    pub zip: String,
    pub place: String,
}

/// The mathematical value of an [`Address`].
pub struct AddressV {
    pub street: Seq<char>,
    pub house_number: Seq<char>,
    pub zip: Seq<char>,
    pub place: Seq<char>,
}

impl View for Address {
    type V = AddressV;

    open spec fn view(&self) -> AddressV {
        AddressV {
            street: self.street@,
            house_number: self.house_number@,
            zip: self.zip@,
            place: self.place@,
        }
    }
}

impl DeepView for Address {
    type V = AddressV;

    open spec fn deep_view(&self) -> AddressV {
        self.view()
    }
}

impl AddressV {
    /// Every part has at least two characters.
    pub open spec fn valid(&self) -> bool {
        &&& self.street.len() >= 2
        &&& self.house_number.len() >= 2
        &&& self.zip.len() >= 2
        &&& self.place.len() >= 2
    }

    /// The names of the fields that fail validation, in declaration order.
    pub open spec fn error_keys(&self) -> Seq<Seq<char>> {
        let k0 = Seq::<Seq<char>>::empty();
        let k1 = if self.street.len() >= 2 {
            k0
        } else {
            k0.push("street"@)
        };
        let k2 = if self.house_number.len() >= 2 {
            k1
        } else {
            k1.push("house_number"@)
        };
        let k3 = if self.zip.len() >= 2 {
            k2
        } else {
            k2.push("zip"@)
        };
        if self.place.len() >= 2 {
            k3
        } else {
            k3.push("place"@)
        }
    }
}

impl Address {
    /// Checks every field constraint; on failure reports the names of the
    /// failing fields.
    pub fn validate(&self) -> (r: Result<(), ValidationErrors>)
        ensures
            r is Ok <==> self@.valid(),
            r matches Err(e) ==> e.keys_view() == self@.error_keys(),
    {
        let mut errors = ValidationErrors::new();
        if !has_min_chars(self.street.as_str(), 2) {
            errors.add("street");
        }
        if !has_min_chars(self.house_number.as_str(), 2) {
            errors.add("house_number");
        }
        if !has_min_chars(self.zip.as_str(), 2) {
            errors.add("zip");
        }
        if !has_min_chars(self.place.as_str(), 2) {
            errors.add("place");
        }
        if errors.is_empty() {
            Ok(())
        } else {
            Err(errors)
        }
    }
}

impl PartialEq for Address {
    fn eq(&self, other: &Address) -> (r: bool) {
        self.street == other.street && self.house_number == other.house_number && self.zip
            == other.zip && self.place == other.place
    }
}

impl vstd::std_specs::cmp::PartialEqSpecImpl for Address {
    open spec fn obeys_eq_spec() -> bool {
        true
    }

    open spec fn eq_spec(&self, other: &Address) -> bool {
        self@ == other@
    }
}

impl Clone for Address {
    /// A clone has the same value as the original.
    fn clone(&self) -> (r: Self)
        ensures
            r@ == self@,
    {
        Address {
            street: self.street.clone(),
            house_number: self.house_number.clone(),
            zip: self.zip.clone(),
            place: self.place.clone(),
        }
    }
}

impl Default for Address {
    /// An address with every part empty; it does not pass validation.
    fn default() -> (r: Address)
        ensures
            r@.street == Seq::<char>::empty(),
            r@.house_number == Seq::<char>::empty(),
            r@.zip == Seq::<char>::empty(),
            r@.place == Seq::<char>::empty(),
            !r@.valid(),
    {
        Address {
            street: String::new(),
            house_number: String::new(),
            zip: String::new(),
            place: String::new(),
        }
    }
}

} // verus!
