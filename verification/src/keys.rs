use vstd::prelude::*;

verus! {

/// The views of a sequence of key-identifier / key-material pairs.
pub open spec fn pair_views(pairs: Seq<(String, String)>) -> Seq<(Seq<char>, Seq<char>)> {
    pairs.map_values(|p: (String, String)| (p.0@, p.1@))
}

/// Look a key identifier up in a sequence of pairs; the first pair whose
/// identifier matches wins.
pub open spec fn lookup_spec(pairs: Seq<(Seq<char>, Seq<char>)>, kid: Seq<char>) -> Option<
    Seq<char>,
>
    decreases pairs.len(),
{
    if pairs.len() == 0 {
        None
    } else if pairs[0].0 == kid {
        Some(pairs[0].1)
    } else {
        lookup_spec(pairs.drop_first(), kid)
    }
}

/// An immutable snapshot of the trusted issuer's published signing keys:
/// key identifier to PEM-encoded public key material. It is never mutated;
/// a refresh builds a new snapshot and replaces the whole value.
pub struct SigningKeySet {
    pairs: Vec<(String, String)>,
}

impl View for SigningKeySet {
    type V = Seq<(Seq<char>, Seq<char>)>;

    closed spec fn view(&self) -> Seq<(Seq<char>, Seq<char>)> {
        pair_views(self.pairs@)
    }
}

impl SigningKeySet {
    pub fn from_pairs(pairs: Vec<(String, String)>) -> (r: Self)
        ensures
            r@ == pair_views(pairs@),
    {
        SigningKeySet { pairs }
    }

    pub fn len(&self) -> (r: usize)
        ensures
            r == self@.len(),
    {
        self.pairs.len()
    }

    /// The public key material for `kid`, if the snapshot has it.
    pub fn lookup(&self, kid: &str) -> (r: Option<String>)
        ensures
            match r {
                Some(pem) => lookup_spec(self@, kid@) == Some(pem@),
                None => lookup_spec(self@, kid@) is None,
            },
    {
        let kid_owned: String = kid.to_owned();
        let mut i: usize = 0;
        proof {
            assert(self@.skip(0) =~= self@);
        }
        while i < self.pairs.len()
            invariant
                i <= self.pairs.len(),
                kid_owned@ == kid@,
                self@ == pair_views(self.pairs@),
                lookup_spec(self@, kid@) == lookup_spec(self@.skip(i as int), kid@),
            decreases self.pairs.len() - i,
        {
            if self.pairs[i].0 == kid_owned {
                proof {
                    assert(self@.skip(i as int)[0] == self@[i as int]);
                }
                return Some(self.pairs[i].1.clone());
            }
            proof {
                assert(self@.skip(i as int)[0] == self@[i as int]);
                assert(self@.skip(i as int).drop_first() =~= self@.skip(i as int + 1));
            }
            i += 1;
        }
        proof {
            assert(self@.skip(i as int) =~= Seq::<(Seq<char>, Seq<char>)>::empty());
        }
        None
    }

    pub fn contains(&self, kid: &str) -> (r: bool)
        ensures
            r == (lookup_spec(self@, kid@) is Some),
    {
        self.lookup(kid).is_some()
    }
}

/// What the key-distribution endpoint's response body parses to: the
/// key-identifier / PEM pairs of a JSON object whose values are all strings,
/// or nothing when the body is not such an object.
pub uninterp spec fn key_map_json_of(body: Seq<char>) -> Option<Seq<(Seq<char>, Seq<char>)>>;

/// Relies on serde_json::from_str: parses the body as a JSON object mapping
/// strings to strings. The pairs come back ordered by key (through a
/// BTreeMap), so the result is a function of the body text alone.
#[verifier::external_body]
fn parse_key_map(body: &str) -> (r: Option<Vec<(String, String)>>)
    ensures
        match r {
            Some(v) => key_map_json_of(body@) == Some(pair_views(v@)),
            None => key_map_json_of(body@) is None,
        },
{
    let m: std::collections::BTreeMap<String, String> = match serde_json::from_str(body) {
        Ok(m) => m,
        Err(_) => return None,
    };
    Some(m.into_iter().collect())
}

/// Build a key-set snapshot from the response body of the key-distribution
/// endpoint; `None` exactly when the body is not a string-to-string JSON
/// object.
pub fn key_set_from_body(body: &str) -> (r: Option<SigningKeySet>)
    ensures
        match r {
            Some(s) => key_map_json_of(body@) == Some(s@),
            None => key_map_json_of(body@) is None,
        },
{
    match parse_key_map(body) {
        Some(v) => Some(SigningKeySet::from_pairs(v)),
        None => None,
    }
}

/// What a cache holds for `kid`: nothing while no snapshot is installed,
/// else the snapshot's entry.
pub open spec fn cache_lookup(cache: Option<Seq<(Seq<char>, Seq<char>)>>, kid: Seq<char>) -> Option<
    Seq<char>,
> {
    match cache {
        None => None,
        Some(pairs) => lookup_spec(pairs, kid),
    }
}

/// The key provider's cached snapshot of the issuer's signing keys. Empty
/// until a first fetch succeeds; each later refresh replaces the snapshot
/// wholesale.
pub struct KeyCache {
    keys: Option<SigningKeySet>,
}

impl View for KeyCache {
    type V = Option<Seq<(Seq<char>, Seq<char>)>>;

    closed spec fn view(&self) -> Option<Seq<(Seq<char>, Seq<char>)>> {
        match self.keys {
            Some(ref k) => Some(k@),
            None => None,
        }
    }
}

impl KeyCache {
    pub fn new() -> (r: Self)
        ensures
            r@ is None,
    {
        KeyCache { keys: None }
    }

    /// Replace the cached snapshot wholesale.
    pub fn install(&mut self, set: SigningKeySet)
        ensures
            final(self)@ == Some(set@),
    {
        self.keys = Some(set);
    }

    /// Parse a fetched response body and, when it is well-formed, install it
    /// as the new snapshot; a malformed body leaves the cache unchanged.
    pub fn refresh_from_body(&mut self, body: &str) -> (ok: bool)
        ensures
            match key_map_json_of(body@) {
                Some(pairs) => ok && final(self)@ == Some(pairs),
                None => !ok && final(self)@ == old(self)@,
            },
    {
        match key_set_from_body(body) {
            Some(set) => {
                self.keys = Some(set);
                true
            },
            None => false,
        }
    }

    /// The current snapshot, if one is installed.
    pub fn snapshot(&self) -> (r: Option<&SigningKeySet>)
        ensures
            match r {
                Some(s) => self@ == Some(s@),
                None => self@ is None,
            },
    {
        match &self.keys {
            Some(s) => Some(s),
            None => None,
        }
    }

    /// The public key material the cache holds for `kid`.
    pub fn get_key(&self, kid: &str) -> (r: Option<String>)
        ensures
            match r {
                Some(pem) => cache_lookup(self@, kid@) == Some(pem@),
                None => cache_lookup(self@, kid@) is None,
            },
    {
        match &self.keys {
            Some(s) => s.lookup(kid),
            None => None,
        }
    }

    /// Whether resolving `kid` requires a fetch: no snapshot yet, or the
    /// snapshot lacks the identifier.
    pub fn needs_refresh(&self, kid: &str) -> (r: bool)
        ensures
            r == (cache_lookup(self@, kid@) is None),
    {
        self.get_key(kid).is_none()
    }
}

} // verus!
