//! The creditor embedded in a mandate.
use crate::models::address::{Address, AddressV};
use crate::models::validation::ValidationErrors;
use crate::patterns::has_min_chars;
use vstd::prelude::*;

verus! {

/// The creditor of a mandate: a name, an optional SEPA creditor
/// identifier, and the creditor's address. Two creditors are equal when
/// all their fields hold the same values.
#[derive(Debug)]
pub struct Creditor {
    pub name: String,
    pub sepa_identifier: Option<String>,
    pub address: Address,
}

/// The mathematical value of a [`Creditor`].
pub struct CreditorV {
    pub name: Seq<char>,
    pub sepa_identifier: Option<Seq<char>>,
    pub address: AddressV,
}

impl View for Creditor {
    type V = CreditorV;

    open spec fn view(&self) -> CreditorV {
        CreditorV {
            name: self.name@,
            sepa_identifier: self.sepa_identifier.deep_view(),
            address: self.address@,
        }
    }
}

impl DeepView for Creditor {
    type V = CreditorV;

    open spec fn deep_view(&self) -> CreditorV {
        self.view()
    }
}

impl CreditorV {
    /// The name, and the SEPA identifier when present, have at least two
    /// characters, and the address is valid.
    pub open spec fn valid(&self) -> bool {
        &&& self.name.len() >= 2
        &&& match self.sepa_identifier {
            Some(s) => s.len() >= 2,
            None => true,
        }
        &&& self.address.valid()
    }

    /// The names of the fields that fail validation, in declaration order.
    /// A failure inside the address is reported under `address`.
    pub open spec fn error_keys(&self) -> Seq<Seq<char>> {
        let k0 = Seq::<Seq<char>>::empty();
        let k1 = if self.name.len() >= 2 {
            k0
        } else {
            k0.push("name"@)
        };
        let k2 = match self.sepa_identifier {
            Some(s) => if s.len() >= 2 {
                k1
            } else {
                k1.push("sepa_identifier"@)
            },
            None => k1,
        };
        if self.address.valid() {
            k2
        } else {
            k2.push("address"@)
        }
    }
}

impl Creditor {
    /// Checks every field constraint; on failure reports the names of the
    /// failing fields.
    pub fn validate(&self) -> (r: Result<(), ValidationErrors>)
        ensures
            r is Ok <==> self@.valid(),
            r matches Err(e) ==> e.keys_view() == self@.error_keys(),
    {
        let mut errors = ValidationErrors::new();
        if !has_min_chars(self.name.as_str(), 2) {
            errors.add("name");
        }
        match &self.sepa_identifier {
            Some(s) => {
                if !has_min_chars(s.as_str(), 2) {
                    errors.add("sepa_identifier");
                }
            },
            None => {},
        }
        if self.address.validate().is_err() {
            errors.add("address");
        }
        if errors.is_empty() {
            Ok(())
        } else {
            Err(errors)
        }
    }
}

impl PartialEq for Creditor {
    fn eq(&self, other: &Creditor) -> (r: bool) {
        let sepa_eq = match (&self.sepa_identifier, &other.sepa_identifier) {
            (Some(a), Some(b)) => *a == *b,
            (None, None) => true,
            _ => false,
        };
        self.name == other.name && sepa_eq && self.address == other.address
    }
}

impl vstd::std_specs::cmp::PartialEqSpecImpl for Creditor {
    open spec fn obeys_eq_spec() -> bool {
        true
    }

    open spec fn eq_spec(&self, other: &Creditor) -> bool {
        self@ == other@
    }
}

impl Clone for Creditor {
    /// A clone has the same value as the original.
    fn clone(&self) -> (r: Self)
        ensures
            r@ == self@,
    {
        Creditor {
            name: self.name.clone(),
            sepa_identifier: match &self.sepa_identifier {
                Some(s) => Some(s.clone()),
                None => None,
            },
            address: self.address.clone(),
        }
    }
}

impl Default for Creditor {
    /// A creditor with every field empty; it does not pass validation.
    fn default() -> (r: Creditor)
        ensures
            r@.name == Seq::<char>::empty(),
            r@.sepa_identifier is None,
            !r@.valid(),
    {
        Creditor { name: String::new(), sepa_identifier: None, address: Address::default() }
    }
}

} // verus!
