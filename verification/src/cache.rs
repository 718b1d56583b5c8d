//! The cache of uploaded art: which address the image host serves a piece of
//! art under, by the art's key. It is kept between runs as a JSON object of
//! keys and addresses.

use crate::text::{pair_texts, text_of};
use vstd::prelude::*;

verus! {

/// The error of the `serde_json` crate.
#[verifier::external_type_specification]
#[verifier::external_body]
pub struct ExJsonError(serde_json::Error);

/// The mapping that a list of pairs stands for: of two pairs with the same
/// key the later one counts.
pub open spec fn as_map(entries: Seq<(Seq<char>, Seq<char>)>) -> Map<Seq<char>, Seq<char>>
    decreases entries.len(),
{
    if entries.len() == 0 {
        Map::empty()
    } else {
        as_map(entries.drop_last()).insert(entries.last().0, entries.last().1)
    }
}

/// Whether no key occurs twice in a list of pairs.
pub open spec fn distinct_keys(entries: Seq<(Seq<char>, Seq<char>)>) -> bool {
    forall|i: int, j: int| 0 <= i < j < entries.len() ==> entries[i].0 != entries[j].0
}

/// The mapping that a text holds, read as a JSON object whose values are all
/// strings; `None` where the text is no such object.
pub uninterp spec fn json_object_map(text: Seq<char>) -> Option<Map<Seq<char>, Seq<char>>>;

/// A mapping written as a pretty-printed JSON object, its keys in ascending
/// order; `None` where it cannot be written.
pub uninterp spec fn json_object_text(entries: Map<Seq<char>, Seq<char>>) -> Option<Seq<char>>;

/// Reads a JSON object of strings with `serde_json::from_str`, into an
/// ordered map, and hands out its entries. The entries depend on the text
/// alone; the contract gives the mapping they stand for the name
/// `json_object_map` and says that the call fails just where there is none.
#[verifier::external_body]
fn parse_object(text: &str) -> (r: Result<Vec<(String, String)>, serde_json::Error>)
    ensures
        match r {
            Ok(entries) => json_object_map(text@) == Some(as_map(pair_texts(entries@))),
            Err(_) => json_object_map(text@) is None,
        },
{
    let object: std::collections::BTreeMap<String, String> = serde_json::from_str(text)?;
    Ok(object.into_iter().collect())
}

/// Writes entries as a JSON object with `serde_json::to_string_pretty`, from
/// an ordered map. With each key once among the entries, the map holds just
/// the entries, whatever their order; so the text depends on the mapping
/// alone, and the contract gives it the name `json_object_text`. The text is
/// an object of strings that `serde_json::from_str` reads back as written:
/// every key and value goes out as a JSON string, with the escapes that the
/// reader undoes.
#[verifier::external_body]
fn print_object(entries: &Vec<(String, String)>) -> (r: Result<String, serde_json::Error>)
    requires
        distinct_keys(pair_texts(entries@)),
    ensures
        match r {
            Ok(text) => {
                &&& json_object_text(as_map(pair_texts(entries@))) == Some(text@)
                &&& json_object_map(text@) == Some(as_map(pair_texts(entries@)))
            },
            Err(_) => json_object_text(as_map(pair_texts(entries@))) is None,
        },
{
    let object: std::collections::BTreeMap<&String, &String> = entries.iter().map(
        |e| (&e.0, &e.1),
    ).collect();
    serde_json::to_string_pretty(&object)
}

/// A key is in the mapping of a list just where a pair of the list has it.
pub proof fn lemma_as_map_domain(entries: Seq<(Seq<char>, Seq<char>)>, key: Seq<char>)
    ensures
        as_map(entries).contains_key(key) <==> exists|i: int|
            0 <= i < entries.len() && #[trigger] entries[i].0 == key,
    decreases entries.len(),
{
    if entries.len() > 0 {
        let front = entries.drop_last();
        lemma_as_map_domain(front, key);
        if as_map(entries).contains_key(key) {
            if entries.last().0 == key {
                assert(entries[entries.len() - 1].0 == key);
            } else {
                let i = choose|i: int| 0 <= i < front.len() && #[trigger] front[i].0 == key;
                assert(entries[i].0 == key);
            }
        }
        if exists|i: int| 0 <= i < entries.len() && #[trigger] entries[i].0 == key {
            let i = choose|i: int| 0 <= i < entries.len() && #[trigger] entries[i].0 == key;
            if i < front.len() {
                assert(front[i].0 == key);
            }
        }
    }
}

/// In a list without a repeated key, every pair is what the mapping holds
/// for its key.
pub proof fn lemma_as_map_value(entries: Seq<(Seq<char>, Seq<char>)>, i: int)
    requires
        distinct_keys(entries),
        0 <= i < entries.len(),
    ensures
        as_map(entries).contains_key(entries[i].0),
        as_map(entries)[entries[i].0] == entries[i].1,
    decreases entries.len(),
{
    if i < entries.len() - 1 {
        let front = entries.drop_last();
        assert(distinct_keys(front)) by {
            assert forall|a: int, b: int| 0 <= a < b < front.len() implies front[a].0
                != front[b].0 by {
                assert(front[a] == entries[a] && front[b] == entries[b]);
            }
        }
        lemma_as_map_value(front, i);
        assert(front[i] == entries[i]);
    }
}

/// In a list without a repeated key, a new value for the key of one pair
/// changes the mapping at that key and nowhere else.
pub proof fn lemma_as_map_update(entries: Seq<(Seq<char>, Seq<char>)>, i: int, value: Seq<char>)
    requires
        distinct_keys(entries),
        0 <= i < entries.len(),
    ensures
        distinct_keys(entries.update(i, (entries[i].0, value))),
        as_map(entries.update(i, (entries[i].0, value))) == as_map(entries).insert(
            entries[i].0,
            value,
        ),
    decreases entries.len(),
{
    let key = entries[i].0;
    let changed = entries.update(i, (key, value));
    assert(distinct_keys(changed)) by {
        assert forall|a: int, b: int| 0 <= a < b < changed.len() implies changed[a].0
            != changed[b].0 by {
            assert(changed[a].0 == entries[a].0 && changed[b].0 == entries[b].0);
        }
    }
    let front = entries.drop_last();
    if i == entries.len() - 1 {
        assert(changed.drop_last() =~= front);
        assert(as_map(changed) =~= as_map(entries).insert(key, value));
    } else {
        assert(distinct_keys(front)) by {
            assert forall|a: int, b: int| 0 <= a < b < front.len() implies front[a].0
                != front[b].0 by {
                assert(front[a] == entries[a] && front[b] == entries[b]);
            }
        }
        assert(front[i] == entries[i]);
        lemma_as_map_update(front, i, value);
        assert(changed.drop_last() =~= front.update(i, (key, value)));
        assert(changed.last() == entries.last());
        assert(entries.last().0 != key);
        assert(as_map(changed) =~= as_map(entries).insert(key, value));
    }
}

/// The cache of uploaded art. It is kept as a list of pairs, each key once,
/// and read as the mapping that the list stands for: vstd gives the hash map
/// of the standard library a meaning only for keys whose hashing it knows,
/// and strings are not among them.
pub struct ArtCache {
    entries: Vec<(String, String)>,
}

impl View for ArtCache {
    type V = Map<Seq<char>, Seq<char>>;

    /// The cache as a mapping from key to address.
    closed spec fn view(&self) -> Map<Seq<char>, Seq<char>> {
        as_map(pair_texts(self.entries@))
    }
}

impl ArtCache {
    /// A cache holds each key once.
    #[verifier::type_invariant]
    spec fn each_key_once(self) -> bool {
        distinct_keys(pair_texts(self.entries@))
    }

    /// A cache that holds nothing.
    pub fn new() -> (r: ArtCache)
        ensures
            r@ == Map::<Seq<char>, Seq<char>>::empty(),
    {
        let entries: Vec<(String, String)> = Vec::new();
        assert(pair_texts(entries@) =~= Seq::empty());
        ArtCache { entries }
    }

    fn position(&self, key: &String) -> (r: Option<usize>)
        ensures
            match r {
                Some(i) => i < self.entries@.len() && self.entries@[i as int].0@ == key@,
                None => forall|j: int|
                    0 <= j < self.entries@.len() ==> self.entries@[j].0@ != key@,
            },
    {
        let mut i: usize = 0;
        while i < self.entries.len()
            invariant
                i <= self.entries@.len(),
                forall|j: int| 0 <= j < i ==> self.entries@[j].0@ != key@,
            decreases self.entries@.len() - i,
        {
            if self.entries[i].0 == *key {
                return Some(i);
            }
            i += 1;
        }
        None
    }

    /// The address cached under `key`, where there is one.
    pub fn lookup(&self, key: &String) -> (r: Option<&String>)
        ensures
            match r {
                Some(url) => self@.contains_key(key@) && self@[key@] == url@,
                None => !self@.contains_key(key@),
            },
    {
        proof {
            use_type_invariant(self);
            lemma_as_map_domain(pair_texts(self.entries@), key@);
        }
        match self.position(key) {
            Some(i) => {
                proof {
                    lemma_as_map_value(pair_texts(self.entries@), i as int);
                }
                Some(&self.entries[i].1)
            },
            None => {
                assert forall|j: int| 0 <= j < pair_texts(self.entries@).len() implies pair_texts(
                    self.entries@,
                )[j].0 != key@ by {}
                None
            },
        }
    }

    /// Caches `url` under `key`, in place of what was cached under it before.
    pub fn insert(&mut self, key: String, url: String)
        ensures
            final(self)@ == old(self)@.insert(key@, url@),
    {
        proof {
            use_type_invariant(&*self);
        }
        let found = self.position(&key);
        let mut entries: Vec<(String, String)> = Vec::new();
        assert(pair_texts(entries@) =~= Seq::empty());
        std::mem::swap(&mut self.entries, &mut entries);
        let ghost before = pair_texts(entries@);
        match found {
            Some(i) => {
                proof {
                    lemma_as_map_update(before, i as int, url@);
                }
                entries.set(i, (key, url));
                assert(pair_texts(entries@) =~= before.update(i as int, (key@, url@)));
            },
            None => {
                entries.push((key, url));
                assert(pair_texts(entries@) =~= before.push((key@, url@)));
                assert(pair_texts(entries@).drop_last() =~= before);
                assert(distinct_keys(pair_texts(entries@)));
            },
        }
        self.entries = entries;
    }

    /// How many keys the cache holds.
    pub fn len(&self) -> (r: usize)
        ensures
            r == self@.dom().len(),
    {
        proof {
            use_type_invariant(self);
            lemma_as_map_size(pair_texts(self.entries@));
        }
        self.entries.len()
    }

    /// A cache of the given pairs; of two pairs with the same key the later
    /// one counts.
    pub fn from_entries(entries: Vec<(String, String)>) -> (r: ArtCache)
        ensures
            r@ == as_map(pair_texts(entries@)),
    {
        let mut cache = ArtCache::new();
        let mut i: usize = 0;
        let ghost all = pair_texts(entries@);
        assert(all.take(0) =~= Seq::empty());
        while i < entries.len()
            invariant
                i <= entries.len(),
                all == pair_texts(entries@),
                cache@ == as_map(all.take(i as int)),
            decreases entries.len() - i,
        {
            proof {
                assert(all.take(i + 1).drop_last() =~= all.take(i as int));
                assert(all.take(i + 1).last() == all[i as int]);
            }
            cache.insert(entries[i].0.clone(), entries[i].1.clone());
            i += 1;
        }
        assert(all.take(i as int) =~= all);
        cache
    }

    /// The pairs of the cache, each key once.
    pub fn entries(&self) -> (r: Vec<(String, String)>)
        ensures
            as_map(pair_texts(r@)) == self@,
            distinct_keys(pair_texts(r@)),
            r@.len() == self@.dom().len(),
    {
        proof {
            use_type_invariant(self);
            lemma_as_map_size(pair_texts(self.entries@));
        }
        let mut out: Vec<(String, String)> = Vec::new();
        let mut i: usize = 0;
        while i < self.entries.len()
            invariant
                i <= self.entries@.len(),
                pair_texts(out@) =~= pair_texts(self.entries@).take(i as int),
            decreases self.entries@.len() - i,
        {
            let key = self.entries[i].0.clone();
            let url = self.entries[i].1.clone();
            let ghost before = out@;
            out.push((key, url));
            assert(pair_texts(out@) =~= pair_texts(before).push(
                (self.entries@[i as int].0@, self.entries@[i as int].1@),
            ));
            i += 1;
        }
        assert(pair_texts(out@) =~= pair_texts(self.entries@));
        out
    }

    /// The cache that a JSON object of keys and addresses holds, as it is
    /// kept between runs; nothing where the text is no such object.
    pub fn from_json(text: &str) -> (r: Option<ArtCache>)
        ensures
            match r {
                Some(cache) => json_object_map(text@) == Some(cache@),
                None => json_object_map(text@) is None,
            },
    {
        match parse_object(text) {
            Ok(entries) => Some(ArtCache::from_entries(entries)),
            Err(_) => None,
        }
    }

    /// The cache as a JSON object of keys and addresses, to be kept between
    /// runs. What is written is read back by `from_json` as the same cache.
    pub fn to_json(&self) -> (r: Option<String>)
        ensures
            text_of(r) == json_object_text(self@),
            r matches Some(text) ==> json_object_map(text@) == Some(self@),
    {
        proof {
            use_type_invariant(self);
        }
        match print_object(&self.entries) {
            Ok(text) => Some(text),
            Err(_) => None,
        }
    }
}

/// A list without a repeated key stands for a mapping of as many keys as it
/// has pairs.
pub proof fn lemma_as_map_size(entries: Seq<(Seq<char>, Seq<char>)>)
    requires
        distinct_keys(entries),
    ensures
        as_map(entries).dom().finite(),
        as_map(entries).dom().len() == entries.len(),
    decreases entries.len(),
{
    if entries.len() > 0 {
        let front = entries.drop_last();
        assert(distinct_keys(front)) by {
            assert forall|a: int, b: int| 0 <= a < b < front.len() implies front[a].0
                != front[b].0 by {
                assert(front[a] == entries[a] && front[b] == entries[b]);
            }
        }
        lemma_as_map_size(front);
        lemma_as_map_domain(front, entries.last().0);
        if as_map(front).contains_key(entries.last().0) {
            let i = choose|i: int| 0 <= i < front.len() && #[trigger] front[i].0 == entries.last().0;
            assert(entries[i].0 == entries[entries.len() - 1].0);
            assert(false);
        }
        assert(as_map(entries).dom() =~= as_map(front).dom().insert(entries.last().0));
    }
}

/// What is cached under a key is what was last put there, and caching under
/// one key leaves every other key as it was.
pub proof fn lemma_insert_then_lookup(
    cache: Map<Seq<char>, Seq<char>>,
    key: Seq<char>,
    url: Seq<char>,
    other: Seq<char>,
)
    ensures
        cache.insert(key, url).contains_key(key),
        cache.insert(key, url)[key] == url,
        other != key ==> cache.insert(key, url).contains_key(other) == cache.contains_key(other),
        other != key && cache.contains_key(other) ==> cache.insert(key, url)[other] == cache[other],
{
}

} // verus!
