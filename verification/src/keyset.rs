//! The issuer's published key set: parsing the fetched key-set document
//! and looking up a signing key by key id.
//!
//! Fetching the document is the caller's business; this module takes the
//! document text and exposes a [`KeySet`] of the usable RSA keys.
use crate::errors::ServiceError;
use crate::patterns::str_eq;
use jsonwebtoken::jwk;
use vstd::prelude::*;

verus! {

/// An RSA signing algorithm a key may declare.
#[derive(Clone, Copy, Debug, PartialEq, Eq, Structural)]
pub enum Alg {
    RS256,
    RS384,
    RS512,
}

impl DeepView for Alg {
    type V = Alg;

    open spec fn deep_view(&self) -> Alg {
        *self
    }
}

/// One entry of the issuer's key-set document, as published: each part is
/// optional, and only entries carrying all three become signing keys.
#[derive(Debug)]
pub struct JwkEntry {
    /// The entry's key id.
    pub kid: Option<String>,
    /// The entry's declared RSA signing algorithm, when it declares one
    /// this module supports.
    pub alg: Option<Alg>,
    /// The RSA public key material: modulus and exponent, base64-encoded.
    pub rsa: Option<(String, String)>,
}

/// The mathematical value of a [`JwkEntry`].
pub struct JwkEntryV {
    pub kid: Option<Seq<char>>,
    pub alg: Option<Alg>,
    pub rsa: Option<(Seq<char>, Seq<char>)>,
}

impl View for JwkEntry {
    type V = JwkEntryV;

    open spec fn view(&self) -> JwkEntryV {
        JwkEntryV {
            kid: self.kid.deep_view(),
            alg: self.alg.deep_view(),
            rsa: self.rsa.deep_view(),
        }
    }
}

impl DeepView for JwkEntry {
    type V = JwkEntryV;

    open spec fn deep_view(&self) -> JwkEntryV {
        self.view()
    }
}

/// One signing key of the key set: key id, algorithm, and RSA public key
/// material.
#[derive(Debug)]
pub struct SigningKey {
    pub kid: String,
    pub alg: Alg,
    pub n: String,
    pub e: String,
}

/// The mathematical value of a [`SigningKey`].
pub struct SigningKeyV {
    pub kid: Seq<char>,
    pub alg: Alg,
    pub n: Seq<char>,
    pub e: Seq<char>,
}

impl View for SigningKey {
    type V = SigningKeyV;

    open spec fn view(&self) -> SigningKeyV {
        SigningKeyV { kid: self.kid@, alg: self.alg, n: self.n@, e: self.e@ }
    }
}

impl DeepView for SigningKey {
    type V = SigningKeyV;

    open spec fn deep_view(&self) -> SigningKeyV {
        self.view()
    }
}

/// The issuer's current signing keys, refreshed wholesale on every fetch.
#[derive(Debug)]
pub struct KeySet {
    pub keys: Vec<SigningKey>,
}

impl View for KeySet {
    type V = Seq<SigningKeyV>;

    open spec fn view(&self) -> Seq<SigningKeyV> {
        self.keys.deep_view()
    }
}

/// What parsing the key-set document yields: `None` when the document is
/// not a key set, otherwise its entries in document order.
pub uninterp spec fn jwks_entries(body: Seq<char>) -> Option<Seq<JwkEntryV>>;

/// Relies on serde_json::from_str for jsonwebtoken's JwkSet: parsing the
/// published key-set document is a function of the document text alone.
/// Entries keep their document order; parts beyond key id, a supported RSA
/// algorithm, and RSA key material are dropped.
#[verifier::external_body]
fn parse_jwks(body: &str) -> (r: Option<Vec<JwkEntry>>)
    ensures
        r.deep_view() == jwks_entries(body@),
{
    let set: jwk::JwkSet = serde_json::from_str(body).ok()?;
    Some(set.keys.into_iter().map(|k| JwkEntry {
        kid: k.common.key_id,
        alg: match k.common.key_algorithm {
            Some(jwk::KeyAlgorithm::RS256) => Some(Alg::RS256),
            Some(jwk::KeyAlgorithm::RS384) => Some(Alg::RS384),
            Some(jwk::KeyAlgorithm::RS512) => Some(Alg::RS512),
            _ => None,
        },
        rsa: match k.algorithm {
            jwk::AlgorithmParameters::RSA(p) => Some((p.n, p.e)),
            _ => None,
        },
    }).collect())
}

/// The signing key an entry yields: one carrying a key id, a supported
/// algorithm and RSA material; other entries yield none.
pub open spec fn entry_key(e: JwkEntryV) -> Option<SigningKeyV> {
    match (e.kid, e.alg, e.rsa) {
        (Some(kid), Some(alg), Some(rsa)) => Some(
            SigningKeyV { kid, alg, n: rsa.0, e: rsa.1 },
        ),
        _ => None,
    }
}

/// The signing keys of a sequence of entries, in entry order.
pub open spec fn spec_key_set(entries: Seq<JwkEntryV>) -> Seq<SigningKeyV>
    decreases entries.len(),
{
    if entries.len() == 0 {
        Seq::empty()
    } else {
        spec_key_set(entries.drop_last()) + (match entry_key(entries.last()) {
            Some(k) => seq![k],
            None => Seq::empty(),
        })
    }
}

/// Builds the key set of the entries that carry everything a signing key
/// needs, keeping their order.
fn key_set_from_entries(entries: &Vec<JwkEntry>) -> (r: KeySet)
    ensures
        r@ == spec_key_set(entries.deep_view()),
{
    let mut keys: Vec<SigningKey> = Vec::new();
    let n = entries.len();
    let mut i: usize = 0;
    while i < n
        invariant
            i <= n == entries@.len(),
            keys.deep_view() == spec_key_set(entries.deep_view().take(i as int)),
        decreases n - i,
    {
        let e = &entries[i];
        match (&e.kid, &e.alg, &e.rsa) {
            (Some(kid), Some(alg), Some(rsa)) => {
                let key = SigningKey {
                    kid: kid.clone(),
                    alg: *alg,
                    n: rsa.0.clone(),
                    e: rsa.1.clone(),
                };
                assert(key.deep_view() == entry_key(entries.deep_view()[i as int]).unwrap());
                keys.push(key);
            },
            _ => {
                assert(entry_key(entries.deep_view()[i as int]) is None);
            },
        }
        proof {
            let evs = entries.deep_view();
            assert(evs.take(i as int + 1).drop_last() =~= evs.take(i as int));
            assert(evs.take(i as int + 1).last() == evs[i as int]);
            assert(keys.deep_view() =~= spec_key_set(evs.take(i as int + 1)));
        }
        i = i + 1;
    }
    proof {
        assert(entries.deep_view().take(n as int) =~= entries.deep_view());
    }
    KeySet { keys }
}

/// Parses the fetched key-set document into the key set it publishes;
/// fails with `KeySetUnavailable` exactly when the document cannot be
/// parsed.
pub fn parse_key_set(body: &str) -> (r: Result<KeySet, ServiceError>)
    ensures
        match r {
            Ok(ks) => jwks_entries(body@) matches Some(es) && ks@ == spec_key_set(es),
            Err(e) => e == ServiceError::KeySetUnavailable && jwks_entries(body@) is None,
        },
{
    match parse_jwks(body) {
        Some(entries) => Ok(key_set_from_entries(&entries)),
        None => Err(ServiceError::KeySetUnavailable),
    }
}

/// The first key of `keys` whose key id is `kid`, if any.
pub open spec fn spec_find_key(keys: Seq<SigningKeyV>, kid: Seq<char>) -> Option<SigningKeyV>
    decreases keys.len(),
{
    if keys.len() == 0 {
        None
    } else if keys[0].kid == kid {
        Some(keys[0])
    } else {
        spec_find_key(keys.drop_first(), kid)
    }
}

/// Looking up a key id skips any prefix of keys with other ids.
pub proof fn lemma_find_key_skip(keys: Seq<SigningKeyV>, kid: Seq<char>, i: int)
    requires
        0 <= i <= keys.len(),
        forall|k: int| 0 <= k < i ==> (#[trigger] keys[k]).kid != kid,
    ensures
        spec_find_key(keys, kid) == spec_find_key(keys.skip(i), kid),
    decreases i,
{
    if i > 0 {
        assert(keys[0].kid != kid);
        assert(keys.drop_first() =~= keys.skip(1));
        assert(spec_find_key(keys, kid) == spec_find_key(keys.skip(1), kid));
        assert(forall|k: int| 0 <= k < i - 1 ==> (#[trigger] keys.skip(1)[k]).kid != kid);
        lemma_find_key_skip(keys.skip(1), kid, i - 1);
        assert(keys.skip(1).skip(i - 1) =~= keys.skip(i));
    } else {
        assert(keys.skip(0) =~= keys);
    }
}

impl KeySet {
    /// Looks up the first key with the given key id.
    pub fn find(&self, kid: &str) -> (r: Option<&SigningKey>)
        ensures
            match r {
                Some(k) => spec_find_key(self@, kid@) == Some(k.deep_view()),
                None => spec_find_key(self@, kid@) is None,
            },
    {
        let n = self.keys.len();
        let mut i: usize = 0;
        while i < n
            invariant
                i <= n == self.keys@.len(),
                forall|k: int| 0 <= k < i ==> (#[trigger] self@[k]).kid != kid@,
            decreases n - i,
        {
            if str_eq(self.keys[i].kid.as_str(), kid) {
                proof {
                    lemma_find_key_skip(self@, kid@, i as int);
                    assert(self@.skip(i as int)[0] == self@[i as int]);
                }
                return Some(&self.keys[i]);
            }
            i = i + 1;
        }
        proof {
            lemma_find_key_skip(self@, kid@, n as int);
            assert(self@.skip(n as int) =~= Seq::<SigningKeyV>::empty());
        }
        None
    }
}

} // verus!
