//! The request-side data model and the backend contract: header maps, the
//! uniform client error, and the trait every interchangeable HTTP backend
//! implements.

use vstd::prelude::*;
use vstd::map_lib::lemma_union_insert_right;

verus! {

/// `serde_json::Value` carried opaquely through the request layer: payload
/// bodies are handed to the backend unchanged and never inspected here.
#[verifier::external_type_specification]
#[verifier::external_body]
pub struct ExValue(serde_json::Value);

/// The uniform error every request operation returns; backends must fold
/// their transport-specific failures into these kinds.
#[derive(Debug, Clone, PartialEq, Eq)]
pub enum ClientError {
    /// Connection, DNS, TLS or other I/O failure below the HTTP layer.
    Transport(String),
    /// The server answered with a non-success status code; the status and
    /// the body are kept for diagnostics.
    StatusCode(u16, String),
    /// The response body could not be read or decoded as text.
    Body(String),
    /// An endpoint verb was invoked while no access token is set.
    AuthUnavailable,
}

pub type ClientResult<T> = Result<T, ClientError>;

/// Compares two string slices character by character.
pub fn str_eq(a: &str, b: &str) -> (r: bool)
    ensures
        r == (a@ == b@),
{
    let a_len = a.unicode_len();
    let b_len = b.unicode_len();
    if a_len != b_len {
        return false;
    }
    let mut i: usize = 0;
    while i < a_len
        invariant
            i <= a_len,
            a_len == a@.len(),
            a_len == b@.len(),
            forall|l: int| 0 <= l < i ==> a@[l] == b@[l],
        decreases a_len - i,
    {
        if a.get_char(i) != b.get_char(i) {
            return false;
        }
        i += 1;
    }
    proof {
        assert(a@ =~= b@);
    }
    true
}

/// The mapping denoted by a sequence of key/value pairs, where a later
/// entry for a key overrides an earlier one.
pub open spec fn map_of(pairs: Seq<(String, String)>) -> Map<Seq<char>, Seq<char>>
    decreases pairs.len(),
{
    if pairs.len() == 0 {
        Map::empty()
    } else {
        map_of(pairs.drop_last()).insert(pairs.last().0@, pairs.last().1@)
    }
}

proof fn lemma_map_of_push(pairs: Seq<(String, String)>, key: String, value: String)
    ensures
        map_of(pairs.push((key, value))) == map_of(pairs).insert(key@, value@),
{
    assert(pairs.push((key, value)).drop_last() =~= pairs);
}

proof fn lemma_map_of_last_match(pairs: Seq<(String, String)>, key: Seq<char>, j: int)
    requires
        0 <= j < pairs.len(),
        pairs[j].0@ == key,
        forall|l: int| j < l < pairs.len() ==> pairs[l].0@ != key,
    ensures
        map_of(pairs).contains_key(key),
        map_of(pairs)[key] == pairs[j].1@,
    decreases pairs.len(),
{
    if j < pairs.len() - 1 {
        lemma_map_of_last_match(pairs.drop_last(), key, j);
    }
}

proof fn lemma_map_of_no_match(pairs: Seq<(String, String)>, key: Seq<char>)
    requires
        forall|l: int| 0 <= l < pairs.len() ==> pairs[l].0@ != key,
    ensures
        !map_of(pairs).contains_key(key),
    decreases pairs.len(),
{
    if pairs.len() > 0 {
        lemma_map_of_no_match(pairs.drop_last(), key);
    }
}

/// A header (or query, or form) map: string keys to string values, the
/// last writer of a key winning. Viewed as a `Map` from key characters to
/// value characters.
pub struct Headers {
    pairs: Vec<(String, String)>,
}

impl View for Headers {
    type V = Map<Seq<char>, Seq<char>>;

    closed spec fn view(&self) -> Map<Seq<char>, Seq<char>> {
        map_of(self.pairs@)
    }
}

impl Headers {
    pub fn new() -> (r: Headers)
        ensures
            r@ == Map::<Seq<char>, Seq<char>>::empty(),
    {
        Headers { pairs: Vec::new() }
    }

    /// Binds `key` to `value`, overriding any earlier binding of `key`.
    pub fn insert(&mut self, key: String, value: String)
        ensures
            final(self)@ == old(self)@.insert(key@, value@),
    {
        proof {
            lemma_map_of_push(self.pairs@, key, value);
        }
        self.pairs.push((key, value));
    }

    /// The value bound to `key`, if any.
    pub fn get(&self, key: &str) -> (r: Option<&String>)
        ensures
            match r {
                Some(v) => self@.contains_key(key@) && v@ == self@[key@],
                None => !self@.contains_key(key@),
            },
    {
        let n = self.pairs.len();
        let mut j = n;
        while j > 0
            invariant
                j <= n,
                n == self.pairs@.len(),
                forall|l: int| j <= l < n ==> self.pairs@[l].0@ != key@,
            decreases j,
        {
            j -= 1;
            if str_eq(self.pairs[j].0.as_str(), key) {
                proof {
                    lemma_map_of_last_match(self.pairs@, key@, j as int);
                }
                return Some(&self.pairs[j].1);
            }
        }
        proof {
            lemma_map_of_no_match(self.pairs@, key@);
        }
        None
    }

    pub fn contains_key(&self, key: &str) -> (r: bool)
        ensures
            r == self@.contains_key(key@),
    {
        self.get(key).is_some()
    }

    /// Merges `other` into `self`; where both bind a key, `other` wins.
    pub fn extend(&mut self, other: &Headers)
        ensures
            final(self)@ == old(self)@.union_prefer_right(other@),
    {
        let n = other.pairs.len();
        proof {
            assert(other.pairs@.take(0) =~= Seq::<(String, String)>::empty());
            assert(map_of(old(self).pairs@).union_prefer_right(Map::empty()) =~= map_of(
                old(self).pairs@,
            ));
        }
        let mut i: usize = 0;
        while i < n
            invariant
                i <= n,
                n == other.pairs@.len(),
                map_of(self.pairs@) == map_of(old(self).pairs@).union_prefer_right(
                    map_of(other.pairs@.take(i as int)),
                ),
            decreases n - i,
        {
            let key = other.pairs[i].0.clone();
            let value = other.pairs[i].1.clone();
            proof {
                broadcast use lemma_union_insert_right;

                lemma_map_of_push(self.pairs@, key, value);
                lemma_map_of_push(other.pairs@.take(i as int), key, value);
                assert(other.pairs@.take(i as int).push((key, value)) =~= other.pairs@.take(
                    i + 1,
                ));
            }
            self.pairs.push((key, value));
            i += 1;
        }
        proof {
            assert(other.pairs@.take(n as int) =~= other.pairs@);
        }
    }

    /// Header merge is last-writer-wins. In `defaults.union_prefer_right(supplied)`,
    /// the map `extend` produces, every key bound by `supplied` carries the
    /// supplied value — a caller-supplied entry overrides a default one for
    /// the same key — a key bound only by `defaults` keeps the default
    /// value, and no other key is bound.
    pub proof fn lemma_merge_last_writer_wins(
        defaults: Map<Seq<char>, Seq<char>>,
        supplied: Map<Seq<char>, Seq<char>>,
        k: Seq<char>,
    )
        ensures
            defaults.union_prefer_right(supplied).contains_key(k) == (defaults.contains_key(k)
                || supplied.contains_key(k)),
            supplied.contains_key(k) ==> defaults.union_prefer_right(supplied)[k] == supplied[k],
            defaults.contains_key(k) && !supplied.contains_key(k)
                ==> defaults.union_prefer_right(supplied)[k] == defaults[k],
    {
    }

    /// The entries in insertion order, for backends that serialize them.
    pub fn entries(&self) -> (r: &Vec<(String, String)>)
        ensures
            map_of(r@) == self@,
    {
        &self.pairs
    }
}

/// Query parameters: string keys to string values, sent in the URL.
pub type Query = Headers;

/// URL-encoded form fields: string keys to string values, sent as the body.
pub type Form = Headers;

/// The interface every HTTP backend implements, so that different client
/// libraries can be used interchangeably. The `url` handed to these methods
/// is always fully resolved; headers, when given, are merged over the
/// backend's defaults with the caller's entry winning; any transport,
/// status or body failure must be folded into `ClientError`. When a request
/// needs no parameters the empty value of the payload type is passed, never
/// an absent one.
pub trait BaseHTTPClient: Sized {
    fn get(&self, url: &str, headers: Option<&Headers>, payload: &Query) -> ClientResult<String>;

    fn post(&self, url: &str, headers: Option<&Headers>, payload: &serde_json::Value)
        -> ClientResult<String>;

    fn post_form(&self, url: &str, headers: Option<&Headers>, payload: &Form) -> ClientResult<
        String,
    >;

    fn put(&self, url: &str, headers: Option<&Headers>, payload: &serde_json::Value)
        -> ClientResult<String>;

    fn delete(&self, url: &str, headers: Option<&Headers>, payload: &serde_json::Value)
        -> ClientResult<String>;
}

} // verus!
