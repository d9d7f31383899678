//! The debtor bank account embedded in a mandate.
use crate::models::validation::ValidationErrors;
use crate::patterns::{contains_bic_shape, has_bic_shape, has_min_chars, is_iban_shape,
    matches_iban_shape};
use vstd::prelude::*;

verus! {

/// A bank account: the holding institution, the account's IBAN, and an
/// optional BIC. Two bank accounts are equal when all their fields hold
/// the same text.
#[derive(Debug)]
pub struct BankAccount {
    pub institution: String,
    pub iban: String,
    pub bic: Option<String>,
}

/// The mathematical value of a [`BankAccount`].
pub struct BankAccountV {
    pub institution: Seq<char>,
    pub iban: Seq<char>,
    pub bic: Option<Seq<char>>,
}

impl View for BankAccount {
    type V = BankAccountV;

    open spec fn view(&self) -> BankAccountV {
        BankAccountV {
            institution: self.institution@,
            iban: self.iban@,
            bic: self.bic.deep_view(),
        }
    }
}

impl DeepView for BankAccount {
    type V = BankAccountV;

    open spec fn deep_view(&self) -> BankAccountV {
        self.view()
    }
}

impl BankAccountV {
    /// The institution has at least two characters, the IBAN has the IBAN
    /// shape, and the BIC, when present, contains a BIC shape.
    pub open spec fn valid(&self) -> bool {
        &&& self.institution.len() >= 2
        &&& is_iban_shape(self.iban)
        &&& match self.bic {
            Some(b) => has_bic_shape(b),
            None => true,
        }
    }

    /// The names of the fields that fail validation, in declaration order.
    pub open spec fn error_keys(&self) -> Seq<Seq<char>> {
        let k0 = Seq::<Seq<char>>::empty();
        let k1 = if self.institution.len() >= 2 {
            k0
        } else {
            k0.push("institution"@)
        };
        let k2 = if is_iban_shape(self.iban) {
            k1
        } else {
            k1.push("iban"@)
        };
        match self.bic {
            Some(b) => if has_bic_shape(b) {
                k2
            } else {
                k2.push("bic"@)
            },
            None => k2,
        }
    }
}

impl BankAccount {
    /// Checks every field constraint; on failure reports the names of the
    /// failing fields.
    pub fn validate(&self) -> (r: Result<(), ValidationErrors>)
        ensures
            r is Ok <==> self@.valid(),
            r matches Err(e) ==> e.keys_view() == self@.error_keys(),
    {
        let mut errors = ValidationErrors::new();
        if !has_min_chars(self.institution.as_str(), 2) {
            errors.add("institution");
        }
        if !matches_iban_shape(self.iban.as_str()) {
            errors.add("iban");
        }
        match &self.bic {
            Some(b) => {
                if !contains_bic_shape(b.as_str()) {
                    errors.add("bic");
                }
            },
            None => {},
        }
        if errors.is_empty() {
            Ok(())
        } else {
            Err(errors)
        }
    }
}

impl PartialEq for BankAccount {
    fn eq(&self, other: &BankAccount) -> (r: bool) {
        let bic_eq = match (&self.bic, &other.bic) {
            (Some(a), Some(b)) => *a == *b,
            (None, None) => true,
            _ => false,
        };
        self.institution == other.institution && self.iban == other.iban && bic_eq
    }
}

impl vstd::std_specs::cmp::PartialEqSpecImpl for BankAccount {
    open spec fn obeys_eq_spec() -> bool {
        true
    }

    open spec fn eq_spec(&self, other: &BankAccount) -> bool {
        self@ == other@
    }
}

impl Clone for BankAccount {
    /// A clone has the same value as the original.
    fn clone(&self) -> (r: Self)
        ensures
            r@ == self@,
    {
        BankAccount {
            institution: self.institution.clone(),
            iban: self.iban.clone(),
            bic: match &self.bic {
                Some(b) => Some(b.clone()),
                None => None,
            },
        }
    }
}

impl Default for BankAccount {
    /// A bank account with every field empty; it does not pass validation.
    fn default() -> (r: BankAccount)
        ensures
            r@.institution == Seq::<char>::empty(),
            r@.iban == Seq::<char>::empty(),
            r@.bic is None,
            !r@.valid(),
    {
        BankAccount { institution: String::new(), iban: String::new(), bic: None }
    }
}

} // verus!
