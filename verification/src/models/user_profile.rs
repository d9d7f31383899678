//! The profile payload a caller exchanges with the profile service.
use crate::models::address::{Address, AddressV};
use crate::models::validation::ValidationErrors;
use crate::patterns::{has_min_chars, is_date_shape, matches_date_shape};
use vstd::prelude::*;

verus! {

/// A caller's profile as sent and received: names, and optional address,
/// date of birth (`dd-mm-yyyy`) and two-letter preferred language. Two
/// profiles are equal when all their fields hold the same values.
#[derive(Debug)]
pub struct UserProfile {
    pub first_name: String,
    pub last_name: String,
    pub address: Option<Address>,
    pub date_of_birth: Option<String>,
    pub preferred_language: Option<String>,
}

/// The mathematical value of a [`UserProfile`].
pub struct UserProfileV {
    pub first_name: Seq<char>,
    pub last_name: Seq<char>,
    pub address: Option<AddressV>,
    pub date_of_birth: Option<Seq<char>>,
    pub preferred_language: Option<Seq<char>>,
}

impl View for UserProfile {
    type V = UserProfileV;

    open spec fn view(&self) -> UserProfileV {
        UserProfileV {
            first_name: self.first_name@,
            last_name: self.last_name@,
            address: self.address.deep_view(),
            date_of_birth: self.date_of_birth.deep_view(),
            preferred_language: self.preferred_language.deep_view(),
        }
    }
}

impl DeepView for UserProfile {
    type V = UserProfileV;

    open spec fn deep_view(&self) -> UserProfileV {
        self.view()
    }
}

impl UserProfileV {
    /// Both names have at least two characters, the address is valid when
    /// present, the date of birth has the `dd-mm-yyyy` shape when present,
    /// and the preferred language has exactly two characters when present.
    pub open spec fn valid(&self) -> bool {
        &&& self.first_name.len() >= 2
        &&& self.last_name.len() >= 2
        &&& match self.address {
            Some(a) => a.valid(),
            None => true,
        }
        &&& match self.date_of_birth {
            Some(d) => is_date_shape(d),
            None => true,
        }
        &&& match self.preferred_language {
            Some(l) => l.len() == 2,
            None => true,
        }
    }

    /// The names of the fields that fail validation, in declaration order.
    pub open spec fn error_keys(&self) -> Seq<Seq<char>> {
        let k0 = Seq::<Seq<char>>::empty();
        let k1 = if self.first_name.len() >= 2 {
            k0
        } else {
            k0.push("first_name"@)
        };
        let k2 = if self.last_name.len() >= 2 {
            k1
        } else {
            k1.push("last_name"@)
        };
        let k3 = match self.address {
            Some(a) => if a.valid() {
                k2
            } else {
                k2.push("address"@)
            },
            None => k2,
        };
        let k4 = match self.date_of_birth {
            Some(d) => if is_date_shape(d) {
                k3
            } else {
                k3.push("date_of_birth"@)
            },
            None => k3,
        };
        match self.preferred_language {
            Some(l) => if l.len() == 2 {
                k4
            } else {
                k4.push("preferred_language"@)
            },
            None => k4,
        }
    }
}

impl UserProfile {
    /// A profile holding only the two names.
    pub fn new(first_name: String, last_name: String) -> (r: UserProfile)
        ensures
            r@.first_name == first_name@,
            r@.last_name == last_name@,
            r@.address is None,
            r@.date_of_birth is None,
            r@.preferred_language is None,
    {
        UserProfile {
            first_name,
            last_name,
            address: None,
            date_of_birth: None,
            preferred_language: None,
        }
    }

    /// Checks every field constraint; on failure reports the names of the
    /// failing fields.
    pub fn validate(&self) -> (r: Result<(), ValidationErrors>)
        ensures
            r is Ok <==> self@.valid(),
            r matches Err(e) ==> e.keys_view() == self@.error_keys(),
    {
        let mut errors = ValidationErrors::new();
        if !has_min_chars(self.first_name.as_str(), 2) {
            errors.add("first_name");
        }
        if !has_min_chars(self.last_name.as_str(), 2) {
            errors.add("last_name");
        }
        match &self.address {
            Some(a) => {
                if a.validate().is_err() {
                    errors.add("address");
                }
            },
            None => {},
        }
        match &self.date_of_birth {
            Some(d) => {
                if !matches_date_shape(d.as_str()) {
                    errors.add("date_of_birth");
                }
            },
            None => {},
        }
        match &self.preferred_language {
            Some(l) => {
                if !(l.as_str().unicode_len() == 2) {
                    errors.add("preferred_language");
                }
            },
            None => {},
        }
        if errors.is_empty() {
            Ok(())
        } else {
            Err(errors)
        }
    }
}

impl PartialEq for UserProfile {
    fn eq(&self, other: &UserProfile) -> (r: bool) {
        let address_eq = match (&self.address, &other.address) {
            (Some(a), Some(b)) => *a == *b,
            (None, None) => true,
            _ => false,
        };
        let birth_eq = match (&self.date_of_birth, &other.date_of_birth) {
            (Some(a), Some(b)) => *a == *b,
            (None, None) => true,
            _ => false,
        };
        let language_eq = match (&self.preferred_language, &other.preferred_language) {
            (Some(a), Some(b)) => *a == *b,
            (None, None) => true,
            _ => false,
        };
        self.first_name == other.first_name && self.last_name == other.last_name && address_eq
            && birth_eq && language_eq
    }
}

impl vstd::std_specs::cmp::PartialEqSpecImpl for UserProfile {
    open spec fn obeys_eq_spec() -> bool {
        true
    }

    open spec fn eq_spec(&self, other: &UserProfile) -> bool {
        self@ == other@
    }
}

impl Clone for UserProfile {
    /// A clone has the same value as the original.
    fn clone(&self) -> (r: Self)
        ensures
            r@ == self@,
    {
        UserProfile {
            first_name: self.first_name.clone(),
            last_name: self.last_name.clone(),
            address: match &self.address {
                Some(a) => Some(a.clone()),
                None => None,
            },
            date_of_birth: match &self.date_of_birth {
                Some(d) => Some(d.clone()),
                None => None,
            },
            preferred_language: match &self.preferred_language {
                Some(l) => Some(l.clone()),
                None => None,
            },
        }
    }
}

} // verus!
