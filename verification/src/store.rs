//! The persistence store the resource services write to: one table of
//! profiles and one of mandates, held in memory.
//!
//! The store assigns internal ids and creation stamps by insertion order:
//! a row's id is its position in its table, and its creation stamp is set
//! once, on insert. The well-formedness invariant carries the store's
//! uniqueness rules: one profile per subject, and one mandate per owning
//! profile and external id.
use crate::models::address::{Address, AddressV};
use crate::models::bank_account::{BankAccount, BankAccountV};
use crate::models::creditor::{Creditor, CreditorV};
use crate::models::mandate::MandateV;
use crate::models::status::Status;
use crate::models::user_profile::UserProfileV;
use crate::patterns::str_eq;
use vstd::prelude::*;

verus! {

/// Lifecycle status of a stored profile.
#[derive(Clone, Copy, Debug, PartialEq, Eq, Structural)]
pub enum ProfileStatus {
    ProfileIncomplete,
    ProfileComplete,
}

/// A stored profile row. `auth_id` is the subject the row belongs to:
/// unique and immutable once created.
#[derive(Debug)]
pub struct ProfileRecord {
    pub id: u64,
    pub auth_id: String,
    pub date_created: u64,
    pub firstname: String,
    pub lastname: String,
    pub address: Option<Address>,
    pub preferred_language: Option<String>,
    pub date_of_birth: Option<String>,
    pub status: ProfileStatus,
}

/// The mathematical value of a [`ProfileRecord`].
pub struct ProfileRecordV {
    pub id: u64,
    pub auth_id: Seq<char>,
    pub date_created: u64,
    pub firstname: Seq<char>,
    pub lastname: Seq<char>,
    pub address: Option<AddressV>,
    pub preferred_language: Option<Seq<char>>,
    pub date_of_birth: Option<Seq<char>>,
    pub status: ProfileStatus,
}

impl View for ProfileRecord {
    type V = ProfileRecordV;

    open spec fn view(&self) -> ProfileRecordV {
        ProfileRecordV {
            id: self.id,
            auth_id: self.auth_id@,
            date_created: self.date_created,
            firstname: self.firstname@,
            lastname: self.lastname@,
            address: self.address.deep_view(),
            preferred_language: self.preferred_language.deep_view(),
            date_of_birth: self.date_of_birth.deep_view(),
            status: self.status,
        }
    }
}

impl DeepView for ProfileRecord {
    type V = ProfileRecordV;

    open spec fn deep_view(&self) -> ProfileRecordV {
        self.view()
    }
}

/// A stored mandate row. The pair of `user_profile_id` and `api_id` is the
/// natural key: an external id is unique only within one profile's
/// mandates.
#[derive(Debug)]
pub struct MandateRecord {
    pub id: u64,
    pub api_id: String,
    pub user_profile_id: u64,
    pub tags: Vec<String>,
    pub status: Status,
    pub unique_reference: Option<String>,
    pub display_name: String,
    pub date_created: u64,
    pub creditor: Creditor,
    pub bank_account: BankAccount,
}

/// The mathematical value of a [`MandateRecord`].
pub struct MandateRecordV {
    pub id: u64,
    pub api_id: Seq<char>,
    pub user_profile_id: u64,
    pub tags: Seq<Seq<char>>,
    pub status: Status,
    pub unique_reference: Option<Seq<char>>,
    pub display_name: Seq<char>,
    pub date_created: u64,
    pub creditor: CreditorV,
    pub bank_account: BankAccountV,
}

impl View for MandateRecord {
    type V = MandateRecordV;

    open spec fn view(&self) -> MandateRecordV {
        MandateRecordV {
            id: self.id,
            api_id: self.api_id@,
            user_profile_id: self.user_profile_id,
            tags: self.tags.deep_view(),
            status: self.status,
            unique_reference: self.unique_reference.deep_view(),
            display_name: self.display_name@,
            date_created: self.date_created,
            creditor: self.creditor@,
            bank_account: self.bank_account@,
        }
    }
}

impl DeepView for MandateRecord {
    type V = MandateRecordV;

    open spec fn deep_view(&self) -> MandateRecordV {
        self.view()
    }
}

/// The in-memory persistence store: the profile table and the mandate
/// table.
#[derive(Debug)]
pub struct Store {
    pub profiles: Vec<ProfileRecord>,
    pub mandates: Vec<MandateRecord>,
}

/// The mathematical value of a [`Store`].
pub struct StoreV {
    pub profiles: Seq<ProfileRecordV>,
    pub mandates: Seq<MandateRecordV>,
}

impl View for Store {
    type V = StoreV;

    open spec fn view(&self) -> StoreV {
        StoreV { profiles: self.profiles.deep_view(), mandates: self.mandates.deep_view() }
    }
}

impl StoreV {
    /// The store's well-formedness: ids equal row positions, creation
    /// stamps were assigned in insertion order, subjects are unique,
    /// (owning profile, external id) pairs are unique, and every mandate's
    /// owner exists.
    pub open spec fn wf(&self) -> bool {
        &&& forall|i: int|
            0 <= i < self.profiles.len() ==> (#[trigger] self.profiles[i]).id as int == i
                && self.profiles[i].date_created as int == i
        &&& forall|i: int, j: int|
            0 <= i < j < self.profiles.len() ==> (#[trigger] self.profiles[i]).auth_id != (
            #[trigger] self.profiles[j]).auth_id
        &&& forall|i: int|
            0 <= i < self.mandates.len() ==> (#[trigger] self.mandates[i]).id as int == i
                && self.mandates[i].date_created as int == i
        &&& forall|i: int, j: int|
            0 <= i < j < self.mandates.len() ==> !((#[trigger] self.mandates[i]).user_profile_id
                == (#[trigger] self.mandates[j]).user_profile_id && self.mandates[i].api_id
                == self.mandates[j].api_id)
        &&& forall|i: int|
            0 <= i < self.mandates.len() ==> ((#[trigger] self.mandates[i]).user_profile_id as int)
                < self.profiles.len()
    }

    /// Whether a profile row for `subject` exists.
    pub open spec fn has_profile(&self, subject: Seq<char>) -> bool {
        exists|i: int|
            0 <= i < self.profiles.len() && (#[trigger] self.profiles[i]).auth_id == subject
    }

    /// The position of the profile row for `subject`.
    pub open spec fn profile_index(&self, subject: Seq<char>) -> int {
        choose|i: int|
            0 <= i < self.profiles.len() && (#[trigger] self.profiles[i]).auth_id == subject
    }

    /// The profile row for `subject`, if any.
    pub open spec fn profile_of(&self, subject: Seq<char>) -> Option<ProfileRecordV> {
        if self.has_profile(subject) {
            Some(self.profiles[self.profile_index(subject)])
        } else {
            None
        }
    }

    /// Whether a mandate row with external id `api_id` owned by profile
    /// `pid` exists.
    pub open spec fn has_mandate(&self, pid: u64, api_id: Seq<char>) -> bool {
        exists|i: int|
            0 <= i < self.mandates.len() && (#[trigger] self.mandates[i]).user_profile_id == pid
                && self.mandates[i].api_id == api_id
    }

    /// The position of the mandate row with external id `api_id` owned by
    /// profile `pid`.
    pub open spec fn mandate_index(&self, pid: u64, api_id: Seq<char>) -> int {
        choose|i: int|
            0 <= i < self.mandates.len() && (#[trigger] self.mandates[i]).user_profile_id == pid
                && self.mandates[i].api_id == api_id
    }

    /// The profile row the upsert writes: on update every field comes from
    /// the payload except the identity-bearing id, subject and creation
    /// stamp; on insert identity comes from the verified context and the
    /// store's counters. Either way the row is left `ProfileIncomplete`.
    pub open spec fn upserted_profile(&self, subject: Seq<char>, dto: UserProfileV) -> ProfileRecordV {
        if self.has_profile(subject) {
            let prev = self.profiles[self.profile_index(subject)];
            ProfileRecordV {
                id: prev.id,
                auth_id: prev.auth_id,
                date_created: prev.date_created,
                firstname: dto.first_name,
                lastname: dto.last_name,
                address: dto.address,
                preferred_language: dto.preferred_language,
                date_of_birth: dto.date_of_birth,
                status: ProfileStatus::ProfileIncomplete,
            }
        } else {
            ProfileRecordV {
                id: self.profiles.len() as u64,
                auth_id: subject,
                date_created: self.profiles.len() as u64,
                firstname: dto.first_name,
                lastname: dto.last_name,
                address: dto.address,
                preferred_language: dto.preferred_language,
                date_of_birth: dto.date_of_birth,
                status: ProfileStatus::ProfileIncomplete,
            }
        }
    }

    /// The store after a profile upsert for `subject`: the existing row
    /// rewritten in place, or a new row appended.
    pub open spec fn upsert_profile(&self, subject: Seq<char>, dto: UserProfileV) -> StoreV {
        if self.has_profile(subject) {
            StoreV {
                profiles: self.profiles.update(
                    self.profile_index(subject),
                    self.upserted_profile(subject, dto),
                ),
                mandates: self.mandates,
            }
        } else {
            StoreV {
                profiles: self.profiles.push(self.upserted_profile(subject, dto)),
                mandates: self.mandates,
            }
        }
    }

    /// The mandate row the upsert writes for owner `pid`: on update every
    /// field comes from the payload except the identity-bearing id,
    /// external id, owner and creation stamp; on insert the external id
    /// comes from the payload and the rest from the resolved context.
    pub open spec fn upserted_mandate(&self, pid: u64, dto: MandateV) -> MandateRecordV {
        if self.has_mandate(pid, dto.api_id) {
            let prev = self.mandates[self.mandate_index(pid, dto.api_id)];
            MandateRecordV {
                id: prev.id,
                api_id: prev.api_id,
                user_profile_id: prev.user_profile_id,
                tags: dto.tags,
                status: dto.status,
                unique_reference: dto.unique_reference,
                display_name: dto.display_name,
                date_created: prev.date_created,
                creditor: dto.creditor,
                bank_account: dto.bank_account,
            }
        } else {
            MandateRecordV {
                id: self.mandates.len() as u64,
                api_id: dto.api_id,
                user_profile_id: pid,
                tags: dto.tags,
                status: dto.status,
                unique_reference: dto.unique_reference,
                display_name: dto.display_name,
                date_created: self.mandates.len() as u64,
                creditor: dto.creditor,
                bank_account: dto.bank_account,
            }
        }
    }

    /// The store after a mandate upsert for owner `pid`: the row matching
    /// both owner and external id rewritten in place, or a new row
    /// appended.
    pub open spec fn upsert_mandate(&self, pid: u64, dto: MandateV) -> StoreV {
        if self.has_mandate(pid, dto.api_id) {
            StoreV {
                profiles: self.profiles,
                mandates: self.mandates.update(
                    self.mandate_index(pid, dto.api_id),
                    self.upserted_mandate(pid, dto),
                ),
            }
        } else {
            StoreV {
                profiles: self.profiles,
                mandates: self.mandates.push(self.upserted_mandate(pid, dto)),
            }
        }
    }
}

impl Store {
    /// An empty store.
    pub fn new() -> (r: Store)
        ensures
            r@.wf(),
            r@.profiles == Seq::<ProfileRecordV>::empty(),
            r@.mandates == Seq::<MandateRecordV>::empty(),
    {
        let r = Store { profiles: Vec::new(), mandates: Vec::new() };
        proof {
            assert(r@.profiles =~= Seq::<ProfileRecordV>::empty());
            assert(r@.mandates =~= Seq::<MandateRecordV>::empty());
        }
        r
    }

    /// Finds the position of the profile row for `subject`, if any: the
    /// store's lookup by unique subject id. Absence is a normal state, not
    /// a failure.
    pub fn find_profile(&self, subject: &str) -> (r: Option<usize>)
        ensures
            match r {
                Some(i) => i < self@.profiles.len() && self@.profiles[i as int].auth_id
                    == subject@,
                None => !self@.has_profile(subject@),
            },
    {
        let n = self.profiles.len();
        let mut i: usize = 0;
        while i < n
            invariant
                i <= n == self.profiles@.len(),
                forall|k: int| 0 <= k < i ==> (#[trigger] self@.profiles[k]).auth_id != subject@,
            decreases n - i,
        {
            if str_eq(self.profiles[i].auth_id.as_str(), subject) {
                return Some(i);
            }
            i = i + 1;
        }
        None
    }

    /// Finds the position of the mandate row with external id `api_id`
    /// owned by profile `pid`, if any.
    pub fn find_mandate(&self, pid: u64, api_id: &str) -> (r: Option<usize>)
        ensures
            match r {
                Some(i) => i < self@.mandates.len() && self@.mandates[i as int].user_profile_id
                    == pid && self@.mandates[i as int].api_id == api_id@,
                None => !self@.has_mandate(pid, api_id@),
            },
    {
        let n = self.mandates.len();
        let mut i: usize = 0;
        while i < n
            invariant
                i <= n == self.mandates@.len(),
                forall|k: int|
                    0 <= k < i ==> !((#[trigger] self@.mandates[k]).user_profile_id == pid
                        && self@.mandates[k].api_id == api_id@),
            decreases n - i,
        {
            if self.mandates[i].user_profile_id == pid && str_eq(
                self.mandates[i].api_id.as_str(),
                api_id,
            ) {
                return Some(i);
            }
            i = i + 1;
        }
        None
    }
}

/// Under well-formedness, any profile row for `subject` stands at the
/// store's `profile_index` for it.
pub proof fn lemma_profile_index_unique(s: StoreV, subject: Seq<char>, i: int)
    requires
        s.wf(),
        0 <= i < s.profiles.len(),
        s.profiles[i].auth_id == subject,
    ensures
        s.has_profile(subject),
        s.profile_index(subject) == i,
{
    assert(s.has_profile(subject));
    let w = s.profile_index(subject);
    if w != i {
        if w < i {
            assert(s.profiles[w].auth_id != s.profiles[i].auth_id);
        } else {
            assert(s.profiles[i].auth_id != s.profiles[w].auth_id);
        }
    }
}

/// Under well-formedness, any mandate row for `(pid, api_id)` stands at
/// the store's `mandate_index` for that pair.
pub proof fn lemma_mandate_index_unique(s: StoreV, pid: u64, api_id: Seq<char>, i: int)
    requires
        s.wf(),
        0 <= i < s.mandates.len(),
        s.mandates[i].user_profile_id == pid,
        s.mandates[i].api_id == api_id,
    ensures
        s.has_mandate(pid, api_id),
        s.mandate_index(pid, api_id) == i,
{
    assert(s.has_mandate(pid, api_id));
    let w = s.mandate_index(pid, api_id);
    if w != i {
        if w < i {
            assert(!(s.mandates[w].user_profile_id == s.mandates[i].user_profile_id
                && s.mandates[w].api_id == s.mandates[i].api_id));
        } else {
            assert(!(s.mandates[i].user_profile_id == s.mandates[w].user_profile_id
                && s.mandates[i].api_id == s.mandates[w].api_id));
        }
    }
}

} // verus!
