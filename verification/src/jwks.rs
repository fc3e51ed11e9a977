//! Signing-key cache: the set of RSA public keys published by the identity
//! provider, indexed by key identifier (`kid`).
//!
//! The cache is built once at startup from the key-set document's entries and
//! is read-only afterwards. Entries whose RSA components do not parse are
//! skipped; they never become lookup hits.

use vstd::prelude::*;

verus! {

/// Declares `jsonwebtoken::DecodingKey` so that cache fields and signatures
/// can carry it. The key material itself is opaque to this crate.
#[verifier::external_type_specification]
#[verifier::external_body]
pub struct ExDecodingKey(jsonwebtoken::DecodingKey);

/// Whether `jsonwebtoken::DecodingKey::from_rsa_components` accepts the pair
/// of base64url-encoded RSA components; its outcome depends on the two
/// strings alone.
pub uninterp spec fn rsa_components_parse(n: Seq<char>, e: Seq<char>) -> bool;

/// Relies on `jsonwebtoken::DecodingKey::from_rsa_components`: it returns a
/// key exactly when both base64url components decode, which is a function of
/// the two strings alone.
#[verifier::external_body]
fn rsa_decoding_key(n: &String, e: &String) -> (r: Option<jsonwebtoken::DecodingKey>)
    ensures
        r is Some <==> rsa_components_parse(n@, e@),
{
    jsonwebtoken::DecodingKey::from_rsa_components(n, e).ok()
}

/// One entry of the identity provider's key-set document: a key identifier
/// and the base64url-encoded RSA modulus and exponent.
pub struct JwkEntry {
    pub kid: String,
    pub n: String,
    pub e: String,
}

/// Whether some entry among the first `n` of `es` carries this `kid` with RSA
/// components that parse into usable key material.
pub open spec fn has_usable_entry(es: Seq<JwkEntry>, n: int, kid: Seq<char>) -> bool {
    exists|i: int| 0 <= i < n && (#[trigger] es[i]).kid@ == kid && rsa_components_parse(es[i].n@, es[i].e@)
}

/// The signing-key cache: verification keys indexed by key identifier.
pub struct SigningKeyCache {
    entries: Vec<(String, jsonwebtoken::DecodingKey)>,
}

impl SigningKeyCache {
    /// The cached key identifiers, in insertion order.
    pub closed spec fn kid_seq(self) -> Seq<Seq<char>> {
        Seq::new(self.entries@.len(), |i: int| self.entries@[i].0@)
    }

    /// Whether a key with this identifier is cached.
    pub open spec fn contains_kid(self, kid: Seq<char>) -> bool {
        self.kid_seq().contains(kid)
    }

    /// Well-formed: each key identifier is indexed at most once.
    pub closed spec fn wf(self) -> bool {
        forall|i: int, j: int|
            0 <= i < j < self.kid_seq().len() ==> self.kid_seq()[i] != self.kid_seq()[j]
    }

    /// An empty cache, recognizing no key identifier.
    pub fn new() -> (c: Self)
        ensures
            c.wf(),
            forall|kid: Seq<char>| !c.contains_kid(kid),
    {
        let c = SigningKeyCache { entries: Vec::new() };
        assert(forall|kid: Seq<char>| !c.kid_seq().contains(kid));
        c
    }

    /// The key cached under this identifier, if any.
    pub fn lookup(&self, kid: &String) -> (r: Option<&jsonwebtoken::DecodingKey>)
        ensures
            r is Some <==> self.contains_kid(kid@),
    {
        let n = self.entries.len();
        for i in 0..n
            invariant
                n == self.entries@.len(),
                forall|j: int| 0 <= j < i ==> self.kid_seq()[j] != kid@,
        {
            let entry = &self.entries[i];
            if entry.0 == *kid {
                assert(self.kid_seq()[i as int] == kid@);
                return Some(&entry.1);
            }
        }
        assert(!self.kid_seq().contains(kid@));
        None
    }

    /// Builds the cache from the key-set document's entries: an identifier is
    /// recognized afterwards exactly when some entry carries it with RSA
    /// components that parse. Entries that fail to parse are skipped, and of
    /// entries sharing an identifier the first usable one is kept.
    pub fn build(entries: &Vec<JwkEntry>) -> (c: Self)
        ensures
            c.wf(),
            forall|kid: Seq<char>|
                #[trigger] c.contains_kid(kid) <==> has_usable_entry(
                    entries@,
                    entries@.len() as int,
                    kid,
                ),
    {
        let mut c = SigningKeyCache { entries: Vec::new() };
        assert(forall|kid: Seq<char>| !c.kid_seq().contains(kid));
        let n = entries.len();
        for i in 0..n
            invariant
                c.wf(),
                n == entries@.len(),
                forall|kid: Seq<char>|
                    #[trigger] c.contains_kid(kid) <==> has_usable_entry(entries@, i as int, kid),
        {
            let ghost prev = c;
            let entry = &entries[i];
            match rsa_decoding_key(&entry.n, &entry.e) {
                Some(key) => {
                    proof {
                        assert((entries@[i as int]).kid@ == entry.kid@);
                        assert(rsa_components_parse(entries@[i as int].n@, entries@[i as int].e@));
                        assert(has_usable_entry(entries@, i + 1, entry.kid@));
                    }
                    if c.lookup(&entry.kid).is_none() {
                        c.entries.push((entry.kid.clone(), key));
                        proof {
                            assert(c.kid_seq() =~= prev.kid_seq().push(entry.kid@));
                            assert forall|kid: Seq<char>| #[trigger] c.contains_kid(kid) implies (
                            prev.contains_kid(kid) || kid == entry.kid@) by {
                                let j = choose|j: int|
                                    0 <= j < c.kid_seq().len() && c.kid_seq()[j] == kid;
                                if j < prev.kid_seq().len() {
                                    assert(prev.kid_seq()[j] == kid);
                                    assert(prev.kid_seq().contains(kid));
                                }
                            };
                            assert forall|kid: Seq<char>| #[trigger] prev.contains_kid(kid)
                                implies c.contains_kid(kid) by {
                                let j = choose|j: int|
                                    0 <= j < prev.kid_seq().len() && prev.kid_seq()[j] == kid;
                                assert(c.kid_seq()[j] == kid);
                                assert(c.kid_seq().contains(kid));
                            };
                            assert(c.kid_seq()[c.kid_seq().len() - 1] == entry.kid@);
                            assert(c.kid_seq().contains(entry.kid@));
                            assert forall|a: int, b: int|
                                0 <= a < b < c.kid_seq().len() implies c.kid_seq()[a]
                                != c.kid_seq()[b] by {
                                if b == c.kid_seq().len() - 1 {
                                    assert(c.kid_seq()[a] == prev.kid_seq()[a]);
                                    if c.kid_seq()[a] == entry.kid@ {
                                        assert(prev.kid_seq().contains(entry.kid@));
                                    }
                                }
                            };
                        }
                    }
                },
                None => {},
            }
            proof {
                assert forall|kid: Seq<char>| #[trigger] c.contains_kid(kid) implies
                    has_usable_entry(entries@, i + 1, kid) by {
                    if prev.contains_kid(kid) {
                        assert(has_usable_entry(entries@, i as int, kid));
                        let j = choose|j: int|
                            0 <= j < i && (#[trigger] entries@[j]).kid@ == kid
                                && rsa_components_parse(entries@[j].n@, entries@[j].e@);
                        assert((entries@[j]).kid@ == kid && rsa_components_parse(
                            entries@[j].n@,
                            entries@[j].e@,
                        ));
                        assert(has_usable_entry(entries@, i + 1, kid));
                    } else {
                        assert(kid == entry.kid@);
                        assert(has_usable_entry(entries@, i + 1, kid));
                    }
                };
                assert forall|kid: Seq<char>| has_usable_entry(entries@, i + 1, kid)
                    implies #[trigger] c.contains_kid(kid) by {
                    let j = choose|j: int|
                        0 <= j < i + 1 && (#[trigger] entries@[j]).kid@ == kid
                            && rsa_components_parse(entries@[j].n@, entries@[j].e@);
                    if j < i {
                        assert(has_usable_entry(entries@, i as int, kid));
                        assert(prev.contains_kid(kid));
                        assert(c.contains_kid(kid));
                    } else {
                        assert(kid == entry.kid@);
                        assert(c.contains_kid(kid));
                    }
                };
            }
        }
        c
    }

    /// How many keys are cached.
    pub fn len(&self) -> (n: usize)
        ensures
            n == self.kid_seq().len(),
    {
        self.entries.len()
    }
}

} // verus!
