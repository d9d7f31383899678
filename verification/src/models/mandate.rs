//! The mandate payload a caller exchanges with the mandate service.
use crate::models::bank_account::{BankAccount, BankAccountV};
use crate::models::creditor::{Creditor, CreditorV};
use crate::models::status::Status;
use crate::models::validation::ValidationErrors;
use crate::patterns::has_min_chars;
use vstd::prelude::*;

verus! {

/// A SEPA direct-debit mandate as sent and received. `api_id` is the
/// caller-generated external id: the idempotency key under which repeated
/// saves of the same mandate converge to one stored row. `date_created` is
/// the store's creation stamp; it is set by the store and ignored on save.
/// Two mandates are equal when all their fields hold the same values.
#[derive(Debug)]
pub struct Mandate {
    pub api_id: String,
    pub tags: Vec<String>,
    pub status: Status,
    pub unique_reference: Option<String>,
    pub display_name: String,
    pub date_created: Option<u64>,
    pub creditor: Creditor,
    pub bank_account: BankAccount,
}

/// The mathematical value of a [`Mandate`].
pub struct MandateV {
    pub api_id: Seq<char>,
    pub tags: Seq<Seq<char>>,
    pub status: Status,
    pub unique_reference: Option<Seq<char>>,
    pub display_name: Seq<char>,
    pub date_created: Option<u64>,
    pub creditor: CreditorV,
    pub bank_account: BankAccountV,
}

impl View for Mandate {
    type V = MandateV;

    open spec fn view(&self) -> MandateV {
        MandateV {
            api_id: self.api_id@,
            tags: self.tags.deep_view(),
            status: self.status,
            unique_reference: self.unique_reference.deep_view(),
            display_name: self.display_name@,
            date_created: self.date_created,
            creditor: self.creditor@,
            bank_account: self.bank_account@,
        }
    }
}

impl DeepView for Mandate {
    type V = MandateV;

    open spec fn deep_view(&self) -> MandateV {
        self.view()
    }
}

impl MandateV {
    /// The unique reference, when present, and the display name have at
    /// least two characters, and the embedded creditor and bank account are
    /// valid.
    pub open spec fn valid(&self) -> bool {
        &&& match self.unique_reference {
            Some(u) => u.len() >= 2,
            None => true,
        }
        &&& self.display_name.len() >= 2
        &&& self.creditor.valid()
        &&& self.bank_account.valid()
    }

    /// The names of the fields that fail validation, in declaration order.
    pub open spec fn error_keys(&self) -> Seq<Seq<char>> {
        let k0 = Seq::<Seq<char>>::empty();
        let k1 = match self.unique_reference {
            Some(u) => if u.len() >= 2 {
                k0
            } else {
                k0.push("unique_reference"@)
            },
            None => k0,
        };
        let k2 = if self.display_name.len() >= 2 {
            k1
        } else {
            k1.push("display_name"@)
        };
        let k3 = if self.creditor.valid() {
            k2
        } else {
            k2.push("creditor"@)
        };
        if self.bank_account.valid() {
            k3
        } else {
            k3.push("bank_account"@)
        }
    }
}

impl Mandate {
    /// Checks every field constraint; on failure reports the names of the
    /// failing fields.
    pub fn validate(&self) -> (r: Result<(), ValidationErrors>)
        ensures
            r is Ok <==> self@.valid(),
            r matches Err(e) ==> e.keys_view() == self@.error_keys(),
    {
        let mut errors = ValidationErrors::new();
        match &self.unique_reference {
            Some(u) => {
                if !has_min_chars(u.as_str(), 2) {
                    errors.add("unique_reference");
                }
            },
            None => {},
        }
        if !has_min_chars(self.display_name.as_str(), 2) {
            errors.add("display_name");
        }
        if self.creditor.validate().is_err() {
            errors.add("creditor");
        }
        if self.bank_account.validate().is_err() {
            errors.add("bank_account");
        }
        if errors.is_empty() {
            Ok(())
        } else {
            Err(errors)
        }
    }
}

/// Decides whether two tag lists hold the same tags in the same order.
fn tags_eq(a: &Vec<String>, b: &Vec<String>) -> (r: bool)
    ensures
        r == (a.deep_view() == b.deep_view()),
{
    let n = a.len();
    if n != b.len() {
        proof {
            assert(a.deep_view().len() != b.deep_view().len());
        }
        return false;
    }
    let mut i: usize = 0;
    while i < n
        invariant
            i <= n == a@.len(),
            n == b@.len(),
            forall|k: int| 0 <= k < i ==> a.deep_view()[k] == b.deep_view()[k],
        decreases n - i,
    {
        if !(a[i] == b[i]) {
            proof {
                assert(a.deep_view()[i as int] != b.deep_view()[i as int]);
            }
            return false;
        }
        i = i + 1;
    }
    proof {
        assert(a.deep_view() =~= b.deep_view());
    }
    true
}

impl PartialEq for Mandate {
    fn eq(&self, other: &Mandate) -> (r: bool) {
        let reference_eq = match (&self.unique_reference, &other.unique_reference) {
            (Some(a), Some(b)) => *a == *b,
            (None, None) => true,
            _ => false,
        };
        let created_eq = match (&self.date_created, &other.date_created) {
            (Some(a), Some(b)) => *a == *b,
            (None, None) => true,
            _ => false,
        };
        self.api_id == other.api_id && tags_eq(&self.tags, &other.tags) && self.status
            == other.status && reference_eq && self.display_name == other.display_name
            && created_eq && self.creditor == other.creditor && self.bank_account
            == other.bank_account
    }
}

impl vstd::std_specs::cmp::PartialEqSpecImpl for Mandate {
    open spec fn obeys_eq_spec() -> bool {
        true
    }

    open spec fn eq_spec(&self, other: &Mandate) -> bool {
        self@ == other@
    }
}

impl Clone for Mandate {
    /// A clone has the same value as the original.
    fn clone(&self) -> (r: Self)
        ensures
            r@ == self@,
    {
        let mut tags: Vec<String> = Vec::new();
        let n = self.tags.len();
        let mut i: usize = 0;
        while i < n
            invariant
                i <= n == self.tags@.len(),
                tags@.len() == i,
                forall|k: int| 0 <= k < i ==> tags@[k]@ == self.tags@[k]@,
            decreases n - i,
        {
            tags.push(self.tags[i].clone());
            i = i + 1;
        }
        proof {
            assert(tags.deep_view() =~= self.tags.deep_view());
        }
        let r = Mandate {
            api_id: self.api_id.clone(),
            tags,
            status: self.status,
            unique_reference: match &self.unique_reference {
                Some(u) => Some(u.clone()),
                None => None,
            },
            display_name: self.display_name.clone(),
            date_created: self.date_created,
            creditor: self.creditor.clone(),
            bank_account: self.bank_account.clone(),
        };
        r
    }
}

/// The first mandate of `ms` whose external id is `api_id`, if any.
pub open spec fn spec_find_mandate(ms: Seq<MandateV>, api_id: Seq<char>) -> Option<MandateV>
    decreases ms.len(),
{
    if ms.len() == 0 {
        None
    } else if ms[0].api_id == api_id {
        Some(ms[0])
    } else {
        spec_find_mandate(ms.drop_first(), api_id)
    }
}

/// Looking up an external id skips any prefix of mandates with other ids.
proof fn lemma_find_mandate_skip(ms: Seq<MandateV>, api_id: Seq<char>, i: int)
    requires
        0 <= i <= ms.len(),
        forall|k: int| 0 <= k < i ==> (#[trigger] ms[k]).api_id != api_id,
    ensures
        spec_find_mandate(ms, api_id) == spec_find_mandate(ms.skip(i), api_id),
    decreases i,
{
    if i > 0 {
        assert(ms[0].api_id != api_id);
        assert(ms.drop_first() =~= ms.skip(1));
        assert(spec_find_mandate(ms, api_id) == spec_find_mandate(ms.skip(1), api_id));
        assert(forall|k: int| 0 <= k < i - 1 ==> (#[trigger] ms.skip(1)[k]).api_id != api_id);
        lemma_find_mandate_skip(ms.skip(1), api_id, i - 1);
        assert(ms.skip(1).skip(i - 1) =~= ms.skip(i));
    } else {
        assert(ms.skip(0) =~= ms);
    }
}

/// Finds the first mandate in a fetched list with the given external id.
pub fn find_mandate_by_id<'a>(mandates: &'a Vec<Mandate>, api_id: &str) -> (r: Option<&'a Mandate>)
    ensures
        match r {
            Some(m) => spec_find_mandate(mandates.deep_view(), api_id@) == Some(m.deep_view()),
            None => spec_find_mandate(mandates.deep_view(), api_id@) is None,
        },
{
    let n = mandates.len();
    let mut i: usize = 0;
    while i < n
        invariant
            i <= n == mandates@.len(),
            forall|k: int| 0 <= k < i ==> (#[trigger] mandates.deep_view()[k]).api_id != api_id@,
        decreases n - i,
    {
        if crate::patterns::str_eq(mandates[i].api_id.as_str(), api_id) {
            proof {
                lemma_find_mandate_skip(mandates.deep_view(), api_id@, i as int);
                assert(mandates.deep_view().skip(i as int)[0] == mandates.deep_view()[i as int]);
            }
            return Some(&mandates[i]);
        }
        i = i + 1;
    }
    proof {
        lemma_find_mandate_skip(mandates.deep_view(), api_id@, n as int);
        assert(mandates.deep_view().skip(n as int) =~= Seq::<MandateV>::empty());
    }
    None
}

/// Whether the candidate under edit differs from the fetched mandate that
/// shares its external id: true exactly when such a mandate exists and is
/// not equal to the candidate.
pub open spec fn spec_selected_modified(ms: Seq<MandateV>, selected: Option<MandateV>) -> bool {
    match selected {
        Some(sm) => match spec_find_mandate(ms, sm.api_id) {
            Some(m) => m != sm,
            None => false,
        },
        None => false,
    }
}

/// Decides whether the mandate under edit has unsaved changes against the
/// fetched list.
pub fn is_selected_mandate_modified(mandates: &Vec<Mandate>, selected: &Option<Mandate>) -> (r:
    bool)
    ensures
        r == spec_selected_modified(mandates.deep_view(), selected.deep_view()),
{
    match selected {
        Some(sm) => match find_mandate_by_id(mandates, sm.api_id.as_str()) {
            Some(m) => !(*m == *sm),
            None => false,
        },
        None => false,
    }
}

} // verus!
