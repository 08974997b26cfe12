//! The cached public keys, keyed by their identifier (`kid`), each with the
//! instant from which it may be used.
use vstd::prelude::*;
use jwt_simple::algorithms::RS256PublicKey;
use crate::external::{rsa_components_accepted, rsa_key_from_components};

verus! {

/// One record of a key-set document, with its key material decoded to bytes.
pub struct JwkRaw {
    /// The key identifier (`kid`).
    pub key_id: String,
    /// The instant (`nbf`) from which the key may be used, if any.
    pub not_before: Option<i64>,
    /// The RSA public exponent (`e`), big-endian.
    pub exponent: Vec<u8>,
    /// The RSA modulus (`n`), big-endian.
    pub modulus: Vec<u8>,
}

/// A public key together with the instant from which it may be used.
pub struct KeyEntry {
    pub key: RS256PublicKey,
    pub not_before: Option<i64>,
}

/// A key entry under its identifier.
pub struct CachedKey {
    pub key_id: String,
    pub entry: KeyEntry,
}

/// An entry is usable at `now` when it has no activation instant, or that
/// instant is not after `now`.
pub open spec fn entry_active(e: KeyEntry, now: i64) -> bool {
    match e.not_before {
        None => true,
        Some(t) => t <= now,
    }
}

/// The entry that a sequence of records gives to `kid`: the last one under
/// that identifier wins.
pub open spec fn lookup_in(s: Seq<CachedKey>, kid: Seq<char>) -> Option<KeyEntry>
    decreases s.len(),
{
    if s.len() == 0 {
        None
    } else if s.last().key_id@ == kid {
        Some(s.last().entry)
    } else {
        lookup_in(s.drop_last(), kid)
    }
}

/// The activation instant that a key-set document gives to `kid` (the last
/// record under that identifier wins), or `None` where no record has it.
pub open spec fn document_not_before(doc: Seq<JwkRaw>, kid: Seq<char>) -> Option<Option<i64>>
    decreases doc.len(),
{
    if doc.len() == 0 {
        None
    } else if doc.last().key_id@ == kid {
        Some(doc.last().not_before)
    } else {
        document_not_before(doc.drop_last(), kid)
    }
}

/// Whether every record of the document holds key material that can be
/// turned into an RSA public key.
pub open spec fn document_keys_accepted(doc: Seq<JwkRaw>) -> bool {
    forall|i: int| 0 <= i < doc.len() ==> rsa_components_accepted(
        #[trigger] doc[i].modulus@,
        doc[i].exponent@,
    )
}

/// The mapping holds exactly the identifiers of the document, each with the
/// activation instant of its last record.
pub open spec fn holds_document(m: Map<Seq<char>, KeyEntry>, doc: Seq<JwkRaw>) -> bool {
    forall|kid: Seq<char>|
        #![trigger m.dom().contains(kid)]
        (m.dom().contains(kid) <==> document_not_before(doc, kid) is Some) && (m.dom().contains(kid)
            ==> document_not_before(doc, kid) == Some(m[kid].not_before))
}

/// The key usable for `kid` at `now` in the mapping `m`: present and active.
pub open spec fn valid_key(m: Map<Seq<char>, KeyEntry>, kid: Seq<char>, now: i64) -> Option<
    RS256PublicKey,
> {
    if m.dom().contains(kid) && entry_active(m[kid], now) {
        Some(m[kid].key)
    } else {
        None
    }
}

/// The set of keys fetched last, from identifier to entry.
pub struct KeyCache {
    entries: Vec<CachedKey>,
}

impl View for KeyCache {
    type V = Map<Seq<char>, KeyEntry>;

    closed spec fn view(&self) -> Map<Seq<char>, KeyEntry> {
        Map::new(
            |k: Seq<char>| lookup_in(self.entries@, k) is Some,
            |k: Seq<char>| lookup_in(self.entries@, k)->Some_0,
        )
    }
}

proof fn lemma_lookup_take(s: Seq<CachedKey>, i: int, kid: Seq<char>)
    requires
        0 <= i < s.len(),
    ensures
        lookup_in(s.take(i + 1), kid) == (if s[i].key_id@ == kid {
            Some(s[i].entry)
        } else {
            lookup_in(s.take(i), kid)
        }),
{
    assert(s.take(i + 1).drop_last() =~= s.take(i));
}

proof fn lemma_lookup_matches_document(s: Seq<CachedKey>, doc: Seq<JwkRaw>, kid: Seq<char>)
    requires
        s.len() == doc.len(),
        forall|j: int|
            0 <= j < s.len() ==> (#[trigger] s[j]).key_id@ == doc[j].key_id@ && s[j].entry.not_before
                == doc[j].not_before,
    ensures
        (lookup_in(s, kid) is Some) == (document_not_before(doc, kid) is Some),
        lookup_in(s, kid) is Some ==> document_not_before(doc, kid) == Some(
            lookup_in(s, kid)->Some_0.not_before,
        ),
    decreases s.len(),
{
    if s.len() > 0 {
        let n = s.len() - 1;
        assert(s[n].key_id@ == doc[n].key_id@);
        lemma_lookup_matches_document(s.drop_last(), doc.drop_last(), kid);
    }
}

impl KeyCache {
    /// A cache that holds no key.
    pub fn new() -> (r: KeyCache)
        ensures
            r@ == Map::<Seq<char>, KeyEntry>::empty(),
    {
        let r = KeyCache { entries: Vec::new() };
        assert(r@ =~= Map::<Seq<char>, KeyEntry>::empty());
        r
    }

    /// Builds the cache from a key-set document: every record's key material
    /// is decoded, and the whole document fails if any one record does.
    /// Where two records share an identifier, the later one wins.
    pub fn from_document(doc: &Vec<JwkRaw>) -> (r: Result<KeyCache, jwt_simple::Error>)
        ensures
            r is Ok <==> document_keys_accepted(doc@),
            r is Ok ==> holds_document(r->Ok_0@, doc@),
    {
        let mut entries: Vec<CachedKey> = Vec::new();
        let mut i: usize = 0;
        while i < doc.len()
            invariant
                i <= doc@.len(),
                entries@.len() == i,
                forall|j: int|
                    0 <= j < i ==> rsa_components_accepted(
                        #[trigger] doc@[j].modulus@,
                        doc@[j].exponent@,
                    ),
                forall|j: int|
                    0 <= j < i ==> (#[trigger] entries@[j]).key_id@ == doc@[j].key_id@
                        && entries@[j].entry.not_before == doc@[j].not_before,
            decreases doc.len() - i,
        {
            let raw = &doc[i];
            match rsa_key_from_components(&raw.modulus, &raw.exponent) {
                Ok(key) => {
                    entries.push(
                        CachedKey {
                            key_id: raw.key_id.clone(),
                            entry: KeyEntry { key, not_before: raw.not_before },
                        },
                    );
                },
                Err(e) => {
                    return Err(e);
                },
            }
            i = i + 1;
        }
        let r = KeyCache { entries };
        proof {
            assert(entries@.len() == doc@.len());
            assert(document_keys_accepted(doc@));
            assert forall|kid: Seq<char>| #![trigger r@.dom().contains(kid)]
                (r@.dom().contains(kid) <==> document_not_before(doc@, kid) is Some) && (
                r@.dom().contains(kid) ==> document_not_before(doc@, kid) == Some(
                    r@[kid].not_before,
                )) by {
                lemma_lookup_matches_document(entries@, doc@, kid);
            }
        }
        Ok(r)
    }

    /// The key for `kid` if one is cached and active at `now`.
    pub fn lookup_valid(&self, kid: &String, now: i64) -> (r: Option<&RS256PublicKey>)
        ensures
            match r {
                Some(k) => valid_key(self@, kid@, now) == Some(*k),
                None => valid_key(self@, kid@, now) is None,
            },
    {
        let mut found: Option<&KeyEntry> = None;
        let mut i: usize = 0;
        while i < self.entries.len()
            invariant
                i <= self.entries@.len(),
                match found {
                    Some(e) => lookup_in(self.entries@.take(i as int), kid@) == Some(*e),
                    None => lookup_in(self.entries@.take(i as int), kid@) is None,
                },
            decreases self.entries.len() - i,
        {
            proof {
                lemma_lookup_take(self.entries@, i as int, kid@);
            }
            if self.entries[i].key_id == *kid {
                found = Some(&self.entries[i].entry);
            }
            i = i + 1;
        }
        assert(self.entries@.take(self.entries@.len() as int) =~= self.entries@);
        match found {
            None => None,
            Some(e) => match e.not_before {
                None => Some(&e.key),
                Some(t) => if t <= now {
                    Some(&e.key)
                } else {
                    None
                },
            },
        }
    }
}

/// Validity window: a cached key whose activation instant lies after `now`
/// is not returned at `now`; at any `later` instant not before its
/// activation, the same cached key is returned, with no refresh between.
pub proof fn lemma_activation_window(
    cache: KeyCache,
    kid: Seq<char>,
    activation: i64,
    now: i64,
    later: i64,
)
    requires
        cache@.dom().contains(kid),
        cache@[kid].not_before == Some(activation),
        now < activation,
        activation <= later,
    ensures
        valid_key(cache@, kid, now) is None,
        valid_key(cache@, kid, later) == Some(cache@[kid].key),
{
}

} // verus!
