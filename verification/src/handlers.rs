//! The resource services: reading and writing the caller's profile and
//! mandates, scoped to the subject of a verified token, through the
//! idempotent create-or-update protocol.
use crate::auth::VerifiedClaims;
use crate::errors::ServiceError;
use crate::models::mandate::{Mandate, MandateV};
use crate::models::user_profile::{UserProfile, UserProfileV};
use crate::store::{MandateRecord, MandateRecordV, ProfileRecord, ProfileRecordV, ProfileStatus,
    Store, StoreV, lemma_mandate_index_unique, lemma_profile_index_unique};
use vstd::pervasive::VecAdditionalExecFns;
use vstd::prelude::*;

verus! {

/// The payload a stored profile row reads back as.
pub open spec fn profile_payload(rec: ProfileRecordV) -> UserProfileV {
    UserProfileV {
        first_name: rec.firstname,
        last_name: rec.lastname,
        address: rec.address,
        date_of_birth: rec.date_of_birth,
        preferred_language: rec.preferred_language,
    }
}

/// Whether a profile row for the subject of `claims` exists.
pub fn profile_exists(store: &Store, claims: &VerifiedClaims) -> (r: bool)
    ensures
        r == store@.has_profile(claims@.subject),
{
    match store.find_profile(claims.subject.as_str()) {
        Some(i) => {
            proof {
                assert(store@.profiles[i as int].auth_id == claims@.subject);
            }
            true
        },
        None => false,
    }
}

/// Resolves the subject of `claims` to its profile row, handing back the
/// subject as well: absence of a row is a normal state, not a failure.
pub fn get_profile_by_auth<'a>(store: &'a Store, claims: &VerifiedClaims) -> (r: (
    Option<&'a ProfileRecord>,
    String,
))
    requires
        store@.wf(),
    ensures
        r.1@ == claims@.subject,
        match r.0 {
            Some(p) => store@.profile_of(claims@.subject) == Some(p@),
            None => store@.profile_of(claims@.subject) is None,
        },
{
    let subject = claims.subject.clone();
    match store.find_profile(subject.as_str()) {
        Some(i) => {
            proof {
                lemma_profile_index_unique(store@, claims@.subject, i as int);
            }
            (Some(&store.profiles[i]), subject)
        },
        None => (None, subject),
    }
}

/// Reads the profile of the subject of `claims` back as a payload;
/// `None` when the subject has no profile yet.
pub fn get_user_profile(store: &Store, claims: &VerifiedClaims) -> (r: Option<UserProfile>)
    requires
        store@.wf(),
    ensures
        r is Some <==> store@.has_profile(claims@.subject),
        match r {
            Some(p) => p@ == profile_payload(store@.profile_of(claims@.subject).unwrap()),
            None => true,
        },
{
    match store.find_profile(claims.subject.as_str()) {
        Some(i) => {
            proof {
                lemma_profile_index_unique(store@, claims@.subject, i as int);
            }
            let rec = &store.profiles[i];
            Some(
                UserProfile {
                    first_name: rec.firstname.clone(),
                    last_name: rec.lastname.clone(),
                    address: match &rec.address {
                        Some(a) => Some(a.clone()),
                        None => None,
                    },
                    date_of_birth: match &rec.date_of_birth {
                        Some(d) => Some(d.clone()),
                        None => None,
                    },
                    preferred_language: match &rec.preferred_language {
                        Some(l) => Some(l.clone()),
                        None => None,
                    },
                },
            )
        },
        None => None,
    }
}

/// Saves the profile payload for the subject of `claims`: validation
/// failures are reported with nothing written; otherwise the subject's
/// existing row is rewritten in place, or a first row is created.
pub fn set_user_profile(store: &mut Store, claims: &VerifiedClaims, dto: &UserProfile) -> (r:
    Result<(), ServiceError>)
    requires
        old(store)@.wf(),
    ensures
        final(store)@.wf(),
        r is Ok <==> dto@.valid(),
        !dto@.valid() ==> r == Err::<(), ServiceError>(ServiceError::ValidationError)
            && final(store)@ == old(store)@,
        dto@.valid() ==> final(store)@ == old(store)@.upsert_profile(claims@.subject, dto@),
{
    if dto.validate().is_err() {
        return Err(ServiceError::ValidationError);
    }
    let subject = claims.subject.clone();
    match store.find_profile(subject.as_str()) {
        Some(i) => {
            proof {
                lemma_profile_index_unique(store@, claims@.subject, i as int);
            }
            let prev = &store.profiles[i];
            let rec = ProfileRecord {
                id: prev.id,
                auth_id: prev.auth_id.clone(),
                date_created: prev.date_created,
                firstname: dto.first_name.clone(),
                lastname: dto.last_name.clone(),
                address: match &dto.address {
                    Some(a) => Some(a.clone()),
                    None => None,
                },
                preferred_language: match &dto.preferred_language {
                    Some(l) => Some(l.clone()),
                    None => None,
                },
                date_of_birth: match &dto.date_of_birth {
                    Some(d) => Some(d.clone()),
                    None => None,
                },
                status: ProfileStatus::ProfileIncomplete,
            };
            proof {
                assert(rec@ == old(store)@.upserted_profile(claims@.subject, dto@));
            }
            store.profiles.set(i, rec);
            proof {
                assert(store@.profiles =~= old(store)@.profiles.update(
                    i as int,
                    old(store)@.upserted_profile(claims@.subject, dto@),
                ));
                assert(store@ == old(store)@.upsert_profile(claims@.subject, dto@));
                assert(old(store).profiles.len() <= usize::MAX);
                lemma_upsert_profile_wf(old(store)@, claims@.subject, dto@);
            }
            Ok(())
        },
        None => {
            proof {
                assert(old(store).profiles.len() <= usize::MAX);
                assert(old(store)@.profiles.len() <= u64::MAX);
            }
            let id = store.profiles.len() as u64;
            let rec = ProfileRecord {
                id,
                auth_id: subject,
                date_created: id,
                firstname: dto.first_name.clone(),
                lastname: dto.last_name.clone(),
                address: match &dto.address {
                    Some(a) => Some(a.clone()),
                    None => None,
                },
                preferred_language: match &dto.preferred_language {
                    Some(l) => Some(l.clone()),
                    None => None,
                },
                date_of_birth: match &dto.date_of_birth {
                    Some(d) => Some(d.clone()),
                    None => None,
                },
                status: ProfileStatus::ProfileIncomplete,
            };
            proof {
                assert(rec@ == old(store)@.upserted_profile(claims@.subject, dto@));
            }
            store.profiles.push(rec);
            proof {
                assert(store@.profiles =~= old(store)@.profiles.push(
                    old(store)@.upserted_profile(claims@.subject, dto@),
                ));
                assert(store@ == old(store)@.upsert_profile(claims@.subject, dto@));
                lemma_upsert_profile_wf(old(store)@, claims@.subject, dto@);
            }
            Ok(())
        },
    }
}

/// The payload a stored mandate row reads back as: its visible fields,
/// with the store's creation stamp.
pub open spec fn mandate_payload(rec: MandateRecordV) -> MandateV {
    MandateV {
        api_id: rec.api_id,
        tags: rec.tags,
        status: rec.status,
        unique_reference: rec.unique_reference,
        display_name: rec.display_name,
        date_created: Some(rec.date_created),
        creditor: rec.creditor,
        bank_account: rec.bank_account,
    }
}

/// The payloads of the mandate rows owned by profile `pid`, in the store's
/// row order.
pub open spec fn spec_mandate_payloads(ms: Seq<MandateRecordV>, pid: u64) -> Seq<MandateV>
    decreases ms.len(),
{
    if ms.len() == 0 {
        Seq::empty()
    } else {
        spec_mandate_payloads(ms.drop_last(), pid) + (if ms.last().user_profile_id == pid {
            seq![mandate_payload(ms.last())]
        } else {
            Seq::empty()
        })
    }
}

/// Lists the mandates of the subject of `claims`, in creation order;
/// fails with `ProfileRequired` exactly when the subject has no profile.
pub fn get_mandates(store: &Store, claims: &VerifiedClaims) -> (r: Result<Vec<Mandate>, ServiceError>)
    requires
        store@.wf(),
    ensures
        r is Ok <==> store@.has_profile(claims@.subject),
        match r {
            Ok(ms) => ms.deep_view() == spec_mandate_payloads(
                store@.mandates,
                store@.profile_of(claims@.subject).unwrap().id,
            ),
            Err(e) => e == ServiceError::ProfileRequired,
        },
{
    let i = match store.find_profile(claims.subject.as_str()) {
        Some(i) => i,
        None => {
            return Err(ServiceError::ProfileRequired);
        },
    };
    proof {
        lemma_profile_index_unique(store@, claims@.subject, i as int);
    }
    let pid = store.profiles[i].id;
    let mut result: Vec<Mandate> = Vec::new();
    let n = store.mandates.len();
    let mut k: usize = 0;
    proof {
        assert(result.deep_view() =~= spec_mandate_payloads(store@.mandates.take(0), pid));
    }
    while k < n
        invariant
            k <= n == store.mandates@.len(),
            result.deep_view() == spec_mandate_payloads(store@.mandates.take(k as int), pid),
        decreases n - k,
    {
        let rec = &store.mandates[k];
        if rec.user_profile_id == pid {
            let m = Mandate {
                api_id: rec.api_id.clone(),
                tags: clone_tags(&rec.tags),
                status: rec.status,
                unique_reference: match &rec.unique_reference {
                    Some(u) => Some(u.clone()),
                    None => None,
                },
                display_name: rec.display_name.clone(),
                date_created: Some(rec.date_created),
                creditor: rec.creditor.clone(),
                bank_account: rec.bank_account.clone(),
            };
            proof {
                assert(m@ == mandate_payload(store@.mandates[k as int]));
            }
            result.push(m);
        }
        proof {
            let msv = store@.mandates;
            assert(msv.take(k as int + 1).drop_last() =~= msv.take(k as int));
            assert(msv.take(k as int + 1).last() == msv[k as int]);
            assert(result.deep_view() =~= spec_mandate_payloads(msv.take(k as int + 1), pid));
        }
        k = k + 1;
    }
    proof {
        assert(store@.mandates.take(n as int) =~= store@.mandates);
    }
    Ok(result)
}

/// Clones a tag list.
fn clone_tags(tags: &Vec<String>) -> (r: Vec<String>)
    ensures
        r.deep_view() == tags.deep_view(),
{
    let mut r: Vec<String> = Vec::new();
    let n = tags.len();
    let mut i: usize = 0;
    while i < n
        invariant
            i <= n == tags@.len(),
            r@.len() == i,
            forall|k: int| 0 <= k < i ==> r@[k]@ == tags@[k]@,
        decreases n - i,
    {
        r.push(tags[i].clone());
        i = i + 1;
    }
    proof {
        assert(r.deep_view() =~= tags.deep_view());
    }
    r
}

/// Saves the mandate payload for the subject of `claims`: validation
/// failures are reported with nothing written; a subject without a profile
/// is refused; otherwise the row matching the payload's external id under
/// the subject's profile is rewritten in place, or a new row is created.
pub fn save_mandate(store: &mut Store, claims: &VerifiedClaims, dto: &Mandate) -> (r: Result<
    (),
    ServiceError,
>)
    requires
        old(store)@.wf(),
    ensures
        final(store)@.wf(),
        r is Ok <==> dto@.valid() && old(store)@.has_profile(claims@.subject),
        !dto@.valid() ==> r == Err::<(), ServiceError>(ServiceError::ValidationError)
            && final(store)@ == old(store)@,
        dto@.valid() && !old(store)@.has_profile(claims@.subject) ==> r == Err::<(), ServiceError>(
            ServiceError::ProfileRequired,
        ) && final(store)@ == old(store)@,
        dto@.valid() && old(store)@.has_profile(claims@.subject) ==> final(store)@ == old(
            store,
        )@.upsert_mandate(old(store)@.profile_of(claims@.subject).unwrap().id, dto@),
{
    if dto.validate().is_err() {
        return Err(ServiceError::ValidationError);
    }
    let i = match store.find_profile(claims.subject.as_str()) {
        Some(i) => i,
        None => {
            return Err(ServiceError::ProfileRequired);
        },
    };
    proof {
        lemma_profile_index_unique(store@, claims@.subject, i as int);
    }
    let pid = store.profiles[i].id;
    let payload = dto.clone();
    match store.find_mandate(pid, payload.api_id.as_str()) {
        Some(j) => {
            proof {
                lemma_mandate_index_unique(store@, pid, dto@.api_id, j as int);
            }
            let prev = &store.mandates[j];
            let rec = MandateRecord {
                id: prev.id,
                api_id: prev.api_id.clone(),
                user_profile_id: prev.user_profile_id,
                tags: payload.tags,
                status: payload.status,
                unique_reference: payload.unique_reference,
                display_name: payload.display_name,
                date_created: prev.date_created,
                creditor: payload.creditor,
                bank_account: payload.bank_account,
            };
            proof {
                assert(rec@ == old(store)@.upserted_mandate(pid, dto@));
            }
            store.mandates.set(j, rec);
            proof {
                assert(store@.mandates =~= old(store)@.mandates.update(
                    j as int,
                    old(store)@.upserted_mandate(pid, dto@),
                ));
                assert(store@ == old(store)@.upsert_mandate(pid, dto@));
                assert(old(store).mandates.len() <= usize::MAX);
                lemma_upsert_mandate_wf(old(store)@, pid, dto@);
            }
            Ok(())
        },
        None => {
            proof {
                assert(old(store).mandates.len() <= usize::MAX);
                assert(old(store)@.mandates.len() <= u64::MAX);
            }
            let id = store.mandates.len() as u64;
            let rec = MandateRecord {
                id,
                api_id: payload.api_id,
                user_profile_id: pid,
                tags: payload.tags,
                status: payload.status,
                unique_reference: payload.unique_reference,
                display_name: payload.display_name,
                date_created: id,
                creditor: payload.creditor,
                bank_account: payload.bank_account,
            };
            proof {
                assert(rec@ == old(store)@.upserted_mandate(pid, dto@));
            }
            store.mandates.push(rec);
            proof {
                assert(store@.mandates =~= old(store)@.mandates.push(
                    old(store)@.upserted_mandate(pid, dto@),
                ));
                assert(store@ == old(store)@.upsert_mandate(pid, dto@));
                lemma_upsert_mandate_wf(old(store)@, pid, dto@);
            }
            Ok(())
        },
    }
}

/// A mandate upsert for an existing profile leaves the store well formed.
/// The length bound is a machine limit: a store held in memory never
/// reaches it.
pub proof fn lemma_upsert_mandate_wf(s: StoreV, pid: u64, dto: MandateV)
    requires
        s.wf(),
        s.mandates.len() <= u64::MAX,
        (pid as int) < s.profiles.len(),
    ensures
        s.upsert_mandate(pid, dto).wf(),
{
    let s1 = s.upsert_mandate(pid, dto);
    if s.has_mandate(pid, dto.api_id) {
        let i = s.mandate_index(pid, dto.api_id);
        assert(0 <= i < s.mandates.len() && s.mandates[i].user_profile_id == pid
            && s.mandates[i].api_id == dto.api_id);
        assert forall|k: int| 0 <= k < s1.mandates.len() implies (#[trigger] s1.mandates[k]).id
            as int == k && s1.mandates[k].date_created as int == k by {
            assert(s.mandates[k].id as int == k);
        }
        assert forall|k: int, l: int| 0 <= k < l < s1.mandates.len() implies !((
        #[trigger] s1.mandates[k]).user_profile_id == (#[trigger] s1.mandates[l]).user_profile_id
            && s1.mandates[k].api_id == s1.mandates[l].api_id) by {
            assert(s1.mandates[k].user_profile_id == s.mandates[k].user_profile_id
                && s1.mandates[k].api_id == s.mandates[k].api_id);
            assert(s1.mandates[l].user_profile_id == s.mandates[l].user_profile_id
                && s1.mandates[l].api_id == s.mandates[l].api_id);
        }
        assert forall|k: int| 0 <= k < s1.mandates.len() implies ((
        #[trigger] s1.mandates[k]).user_profile_id as int) < s1.profiles.len() by {
            assert(s1.mandates[k].user_profile_id == s.mandates[k].user_profile_id);
        }
    } else {
        assert forall|k: int| 0 <= k < s1.mandates.len() implies (#[trigger] s1.mandates[k]).id
            as int == k && s1.mandates[k].date_created as int == k by {
            if k < s.mandates.len() {
                assert(s.mandates[k].id as int == k);
            }
        }
        assert forall|k: int, l: int| 0 <= k < l < s1.mandates.len() implies !((
        #[trigger] s1.mandates[k]).user_profile_id == (#[trigger] s1.mandates[l]).user_profile_id
            && s1.mandates[k].api_id == s1.mandates[l].api_id) by {
            if l < s.mandates.len() {
                assert(s1.mandates[k] == s.mandates[k]);
            } else {
                assert(s1.mandates[l].user_profile_id == pid && s1.mandates[l].api_id
                    == dto.api_id);
                assert(!(s.mandates[k].user_profile_id == pid && s.mandates[k].api_id
                    == dto.api_id));
            }
        }
        assert forall|k: int| 0 <= k < s1.mandates.len() implies ((
        #[trigger] s1.mandates[k]).user_profile_id as int) < s1.profiles.len() by {
            if k < s.mandates.len() {
                assert(((s.mandates[k]).user_profile_id as int) < s.profiles.len());
            }
        }
    }
}

/// A profile upsert leaves the store well formed. The length bound is a
/// machine limit: a store held in memory never reaches it.
pub proof fn lemma_upsert_profile_wf(s: StoreV, subject: Seq<char>, dto: UserProfileV)
    requires
        s.wf(),
        s.profiles.len() <= u64::MAX,
    ensures
        s.upsert_profile(subject, dto).wf(),
{
    let s1 = s.upsert_profile(subject, dto);
    if s.has_profile(subject) {
        let i = s.profile_index(subject);
        assert(0 <= i < s.profiles.len() && s.profiles[i].auth_id == subject);
        assert forall|k: int| 0 <= k < s1.profiles.len() implies (#[trigger] s1.profiles[k]).id
            as int == k && s1.profiles[k].date_created as int == k by {
            assert(s.profiles[k].id as int == k);
        }
        assert forall|k: int, l: int| 0 <= k < l < s1.profiles.len() implies (
        #[trigger] s1.profiles[k]).auth_id != (#[trigger] s1.profiles[l]).auth_id by {
            assert(s1.profiles[k].auth_id == s.profiles[k].auth_id);
            assert(s1.profiles[l].auth_id == s.profiles[l].auth_id);
        }
    } else {
        assert forall|k: int| 0 <= k < s1.profiles.len() implies (#[trigger] s1.profiles[k]).id
            as int == k && s1.profiles[k].date_created as int == k by {
            if k < s.profiles.len() {
                assert(s.profiles[k].id as int == k);
            }
        }
        assert forall|k: int, l: int| 0 <= k < l < s1.profiles.len() implies (
        #[trigger] s1.profiles[k]).auth_id != (#[trigger] s1.profiles[l]).auth_id by {
            if l < s.profiles.len() {
                assert(s1.profiles[k] == s.profiles[k] && s1.profiles[l] == s.profiles[l]);
            } else {
                assert(s1.profiles[l].auth_id == subject);
                assert(s.profiles[k].auth_id != subject);
            }
        }
    }
}

/// A bank account as handed outward by the boundary layer.
#[derive(Debug, PartialEq, Eq)]
pub struct DtoBankAccount {
    pub institution: String,
    pub iban: String,
    pub bic: Option<String>,
}

/// How many mandate rows carry external id `api_id` under owner `pid`.
pub open spec fn count_matching(ms: Seq<MandateRecordV>, pid: u64, api_id: Seq<char>) -> nat
    decreases ms.len(),
{
    if ms.len() == 0 {
        0
    } else {
        count_matching(ms.drop_last(), pid, api_id) + (if ms.last().user_profile_id == pid
            && ms.last().api_id == api_id {
            1nat
        } else {
            0nat
        })
    }
}

/// Where rows are unique by owner and external id, a pair is stored on
/// exactly one row or none.
proof fn lemma_count_matching_unique(ms: Seq<MandateRecordV>, pid: u64, api_id: Seq<char>)
    requires
        forall|i: int, j: int|
            0 <= i < j < ms.len() ==> !((#[trigger] ms[i]).user_profile_id == (
            #[trigger] ms[j]).user_profile_id && ms[i].api_id == ms[j].api_id),
    ensures
        count_matching(ms, pid, api_id) == if (exists|i: int|
            0 <= i < ms.len() && (#[trigger] ms[i]).user_profile_id == pid && ms[i].api_id
                == api_id) {
            1nat
        } else {
            0nat
        },
    decreases ms.len(),
{
    if ms.len() > 0 {
        let head = ms.drop_last();
        assert(forall|k: int| 0 <= k < head.len() ==> head[k] == ms[k]);
        lemma_count_matching_unique(head, pid, api_id);
        if ms.last().user_profile_id == pid && ms.last().api_id == api_id {
            assert(ms.last() == ms[ms.len() - 1]);
            if exists|i: int|
                0 <= i < head.len() && (#[trigger] head[i]).user_profile_id == pid && head[i].api_id
                    == api_id {
                let i = choose|i: int|
                    0 <= i < head.len() && (#[trigger] head[i]).user_profile_id == pid
                        && head[i].api_id == api_id;
                assert(!(ms[i].user_profile_id == ms[ms.len() - 1].user_profile_id && ms[i].api_id
                    == ms[ms.len() - 1].api_id));
                assert(false);
            }
            assert(count_matching(ms, pid, api_id) == 1);
            assert(ms[ms.len() - 1].user_profile_id == pid && ms[ms.len() - 1].api_id == api_id);
        } else {
            if exists|i: int|
                0 <= i < ms.len() && (#[trigger] ms[i]).user_profile_id == pid && ms[i].api_id
                    == api_id {
                let i = choose|i: int|
                    0 <= i < ms.len() && (#[trigger] ms[i]).user_profile_id == pid && ms[i].api_id
                        == api_id;
                assert(i < head.len());
                assert(head[i] == ms[i]);
            }
            if exists|i: int|
                0 <= i < head.len() && (#[trigger] head[i]).user_profile_id == pid && head[i].api_id
                    == api_id {
                let i = choose|i: int|
                    0 <= i < head.len() && (#[trigger] head[i]).user_profile_id == pid
                        && head[i].api_id == api_id;
                assert(ms[i] == head[i]);
            }
        }
    }
}

/// Saving a mandate payload and then saving a second payload with the same
/// external id for the same profile leaves exactly one row under that
/// profile and external id, and its visible fields are those of the second
/// payload: repeated saves converge to one row instead of accumulating
/// duplicates. The length bound is a machine limit.
pub proof fn lemma_save_mandate_idempotent(s: StoreV, pid: u64, m1: MandateV, m2: MandateV)
    requires
        s.wf(),
        s.mandates.len() < u64::MAX,
        (pid as int) < s.profiles.len(),
        m1.api_id == m2.api_id,
    ensures
        ({
            let s2 = s.upsert_mandate(pid, m1).upsert_mandate(pid, m2);
            &&& count_matching(s2.mandates, pid, m2.api_id) == 1
            &&& ({
                let row = s2.mandates[s2.mandate_index(pid, m2.api_id)];
                let p = mandate_payload(row);
                &&& p.api_id == m2.api_id
                &&& p.tags == m2.tags
                &&& p.status == m2.status
                &&& p.unique_reference == m2.unique_reference
                &&& p.display_name == m2.display_name
                &&& p.creditor == m2.creditor
                &&& p.bank_account == m2.bank_account
            })
        }),
{
    let s1 = s.upsert_mandate(pid, m1);
    lemma_upsert_mandate_wf(s, pid, m1);
    if s.has_mandate(pid, m1.api_id) {
        let i = s.mandate_index(pid, m1.api_id);
        assert(s1.mandates[i].user_profile_id == pid && s1.mandates[i].api_id == m1.api_id);
        assert(s1.has_mandate(pid, m1.api_id));
    } else {
        let i = s.mandates.len() as int;
        assert(s1.mandates[i].user_profile_id == pid && s1.mandates[i].api_id == m1.api_id);
        assert(s1.has_mandate(pid, m1.api_id));
    }
    lemma_upsert_mandate_wf(s1, pid, m2);
    let s2 = s1.upsert_mandate(pid, m2);
    let j = s1.mandate_index(pid, m2.api_id);
    assert(0 <= j < s1.mandates.len() && s1.mandates[j].user_profile_id == pid
        && s1.mandates[j].api_id == m2.api_id);
    let row = s1.upserted_mandate(pid, m2);
    assert(s2.mandates == s1.mandates.update(j, row));
    assert(s2.mandates[j] == row);
    lemma_mandate_index_unique(s2, pid, m2.api_id, j);
    lemma_count_matching_unique(s2.mandates, pid, m2.api_id);
}

/// Updating an existing profile rewrites only that row and never changes
/// its internal id, subject id or creation stamp. The payload carries no
/// identity fields at all: identity comes from the verified context alone,
/// so a payload cannot supply different values for them.
pub proof fn lemma_upsert_profile_preserves_identity(
    s: StoreV,
    subject: Seq<char>,
    dto: UserProfileV,
)
    requires
        s.wf(),
        s.has_profile(subject),
    ensures
        ({
            let s1 = s.upsert_profile(subject, dto);
            let i = s.profile_index(subject);
            &&& s1.profiles.len() == s.profiles.len()
            &&& s1.profiles[i].id == s.profiles[i].id
            &&& s1.profiles[i].auth_id == s.profiles[i].auth_id
            &&& s1.profiles[i].date_created == s.profiles[i].date_created
            &&& forall|k: int|
                0 <= k < s.profiles.len() && k != i ==> s1.profiles[k] == s.profiles[k]
        }),
{
}

/// Every listed payload comes from a row owned by the queried profile.
proof fn lemma_mandate_payloads_membership(ms: Seq<MandateRecordV>, pid: u64)
    ensures
        ({
            let r = spec_mandate_payloads(ms, pid);
            forall|k: int|
                #![trigger r[k]]
                0 <= k < r.len() ==> exists|i: int|
                    0 <= i < ms.len() && (#[trigger] ms[i]).user_profile_id == pid && r[k]
                        == mandate_payload(ms[i])
        }),
    decreases ms.len(),
{
    let r = spec_mandate_payloads(ms, pid);
    if ms.len() > 0 {
        let head = ms.drop_last();
        lemma_mandate_payloads_membership(head, pid);
        let rr = spec_mandate_payloads(head, pid);
        assert forall|k: int|
            #![trigger r[k]]
            0 <= k < r.len() implies exists|i: int|
            0 <= i < ms.len() && (#[trigger] ms[i]).user_profile_id == pid && r[k]
                == mandate_payload(ms[i]) by {
            if k < rr.len() {
                assert(r[k] == rr[k]);
                let i = choose|i: int|
                    0 <= i < head.len() && (#[trigger] head[i]).user_profile_id == pid && rr[k]
                        == mandate_payload(head[i]);
                assert(head[i] == ms[i]);
                assert(ms[i].user_profile_id == pid && r[k] == mandate_payload(ms[i]));
            } else {
                assert(ms.last().user_profile_id == pid);
                assert(r[k] == mandate_payload(ms.last()));
                assert(ms.last() == ms[ms.len() - 1]);
                assert(ms[ms.len() - 1].user_profile_id == pid && r[k] == mandate_payload(
                    ms[ms.len() - 1],
                ));
            }
        }
    }
}

/// The creation stamp a listed mandate carries.
pub open spec fn creation_stamp(m: MandateV) -> u64 {
    match m.date_created {
        Some(d) => d,
        None => 0,
    }
}

/// Listed payloads carry their rows' creation stamps in non-decreasing
/// order, provided the rows' stamps are non-decreasing.
proof fn lemma_mandate_payloads_sorted(ms: Seq<MandateRecordV>, pid: u64)
    requires
        forall|i: int, j: int|
            0 <= i <= j < ms.len() ==> (#[trigger] ms[i]).date_created <= (
            #[trigger] ms[j]).date_created,
    ensures
        ({
            let r = spec_mandate_payloads(ms, pid);
            &&& forall|k: int| #![trigger r[k]] 0 <= k < r.len() ==> r[k].date_created is Some
            &&& forall|a: int, b: int|
                #![trigger r[a], r[b]]
                0 <= a <= b < r.len() ==> creation_stamp(r[a]) <= creation_stamp(r[b])
        }),
    decreases ms.len(),
{
    let r = spec_mandate_payloads(ms, pid);
    if ms.len() > 0 {
        let head = ms.drop_last();
        assert(forall|k: int| 0 <= k < head.len() ==> head[k] == ms[k]);
        lemma_mandate_payloads_sorted(head, pid);
        lemma_mandate_payloads_membership(head, pid);
        let rr = spec_mandate_payloads(head, pid);
        assert forall|k: int| #![trigger r[k]] 0 <= k < r.len() implies r[k].date_created
            is Some by {
            if k < rr.len() {
                assert(r[k] == rr[k]);
            } else {
                assert(r[k] == mandate_payload(ms.last()));
            }
        }
        assert forall|a: int, b: int|
            #![trigger r[a], r[b]]
            0 <= a <= b < r.len() implies creation_stamp(r[a]) <= creation_stamp(r[b]) by {
            if b < rr.len() {
                assert(r[a] == rr[a] && r[b] == rr[b]);
            } else if a < b {
                assert(ms.last().user_profile_id == pid);
                assert(r[b] == mandate_payload(ms.last()));
                assert(r[a] == rr[a]);
                let i = choose|i: int|
                    0 <= i < head.len() && (#[trigger] head[i]).user_profile_id == pid && rr[a]
                        == mandate_payload(head[i]);
                assert(head[i] == ms[i]);
                assert(ms[i].date_created <= ms[ms.len() - 1].date_created);
                assert(creation_stamp(r[a]) == ms[i].date_created);
                assert(creation_stamp(r[b]) == ms.last().date_created);
            }
        }
    }
}

/// In a well-formed store, the mandates listed for a profile come back in
/// non-decreasing creation order.
pub proof fn lemma_mandates_listed_in_creation_order(s: StoreV, pid: u64)
    requires
        s.wf(),
    ensures
        ({
            let r = spec_mandate_payloads(s.mandates, pid);
            forall|a: int, b: int|
                #![trigger r[a], r[b]]
                0 <= a <= b < r.len() ==> creation_stamp(r[a]) <= creation_stamp(r[b])
        }),
{
    assert(forall|i: int, j: int|
        0 <= i <= j < s.mandates.len() ==> (#[trigger] s.mandates[i]).date_created <= (
        #[trigger] s.mandates[j]).date_created);
    lemma_mandate_payloads_sorted(s.mandates, pid);
}

/// Mandates are isolated by subject: two distinct subjects resolve to
/// distinct profiles, and every mandate listed for a subject comes from a
/// row owned by that subject's profile — never from another's.
pub proof fn lemma_mandate_isolation(s: StoreV, subject_a: Seq<char>, subject_b: Seq<char>)
    requires
        s.wf(),
        s.has_profile(subject_a),
        s.has_profile(subject_b),
        subject_a != subject_b,
    ensures
        s.profile_of(subject_a).unwrap().id != s.profile_of(subject_b).unwrap().id,
        ({
            let pid_b = s.profile_of(subject_b).unwrap().id;
            let r = spec_mandate_payloads(s.mandates, pid_b);
            forall|k: int|
                #![trigger r[k]]
                0 <= k < r.len() ==> exists|i: int|
                    0 <= i < s.mandates.len() && (#[trigger] s.mandates[i]).user_profile_id == pid_b
                        && r[k] == mandate_payload(s.mandates[i])
        }),
{
    let ia = s.profile_index(subject_a);
    let ib = s.profile_index(subject_b);
    assert(s.profiles[ia].auth_id == subject_a);
    assert(s.profiles[ib].auth_id == subject_b);
    assert(ia != ib);
    assert(s.profiles[ia].id as int == ia && s.profiles[ib].id as int == ib);
    lemma_mandate_payloads_membership(s.mandates, s.profile_of(subject_b).unwrap().id);
}

} // verus!

