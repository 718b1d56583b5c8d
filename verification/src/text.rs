//! Text building blocks: views of strings, joined lists, prefixes, and the
//! extension of a file name.

use vstd::prelude::*;

verus! {

/// The view of an optional string.
pub open spec fn text_of(s: Option<String>) -> Option<Seq<char>> {
    match s {
        Some(t) => Some(t@),
        None => None,
    }
}

/// The views of a sequence of strings, in order.
pub open spec fn texts(v: Seq<String>) -> Seq<Seq<char>> {
    Seq::new(v.len(), |i: int| v[i]@)
}

/// The views of a sequence of pairs of strings, in order.
pub open spec fn pair_texts(v: Seq<(String, String)>) -> Seq<(Seq<char>, Seq<char>)> {
    Seq::new(v.len(), |i: int| (v[i].0@, v[i].1@))
}

/// `parts` with `sep` between each two neighbours.
pub open spec fn joined(parts: Seq<Seq<char>>, sep: Seq<char>) -> Seq<char>
    decreases parts.len(),
{
    if parts.len() == 0 {
        Seq::empty()
    } else if parts.len() == 1 {
        parts[0]
    } else {
        joined(parts.drop_last(), sep) + sep + parts.last()
    }
}

/// What stands between the values of a tag that occurs more than once.
pub open spec fn list_separator() -> Seq<char> {
    ", "@
}

/// Joins the values of a tag that occurs more than once, in the order in
/// which they were met, with a comma and a space between them.
pub fn join_values(parts: &Vec<String>) -> (r: String)
    ensures
        r@ == joined(texts(parts@), list_separator()),
{
    let mut out = String::new();
    let mut i: usize = 0;
    assert(texts(parts@).take(0) =~= Seq::<Seq<char>>::empty());
    while i < parts.len()
        invariant
            i <= parts.len(),
            out@ == joined(texts(parts@).take(i as int), list_separator()),
        decreases parts.len() - i,
    {
        proof {
            let before = texts(parts@).take(i as int);
            let after = texts(parts@).take(i + 1);
            assert(after.drop_last() =~= before);
            assert(after.last() == parts@[i as int]@);
        }
        if i > 0 {
            out.append(", ");
        }
        out.append(parts[i].as_str());
        proof {
            if i == 0 {
                assert(out@ =~= parts@[0]@);
            }
        }
        i += 1;
    }
    assert(texts(parts@).take(i as int) =~= texts(parts@));
    out
}

/// The part of `path` behind its last full stop; `None` where it has none.
pub open spec fn extension(path: Seq<char>) -> Option<Seq<char>>
    decreases path.len(),
{
    if path.len() == 0 {
        None
    } else if path.last() == '.' {
        Some(Seq::empty())
    } else {
        match extension(path.drop_last()) {
            Some(e) => Some(e.push(path.last())),
            None => None,
        }
    }
}

/// The extension is what follows a full stop that no other full stop follows.
pub proof fn lemma_extension_after_last_stop(path: Seq<char>, i: int)
    requires
        0 <= i < path.len(),
        path[i] == '.',
        forall|j: int| i < j < path.len() ==> path[j] != '.',
    ensures
        extension(path) == Some(path.skip(i + 1)),
    decreases path.len(),
{
    if path.last() == '.' {
        assert(i == path.len() - 1);
        assert(path.skip(i + 1) =~= Seq::<char>::empty());
    } else {
        let front = path.drop_last();
        lemma_extension_after_last_stop(front, i);
        assert(front.skip(i + 1).push(path.last()) =~= path.skip(i + 1));
    }
}

/// A name without a full stop has no extension.
pub proof fn lemma_extension_without_stop(path: Seq<char>)
    requires
        forall|j: int| 0 <= j < path.len() ==> path[j] != '.',
    ensures
        extension(path) is None,
    decreases path.len(),
{
    if path.len() > 0 {
        lemma_extension_without_stop(path.drop_last());
    }
}

/// Whether `name` is the text `literal`.
pub fn text_is(name: &String, literal: &str) -> (r: bool)
    ensures
        r == (name@ == literal@),
{
    let wanted = String::from_str(literal);
    *name == wanted
}

/// The characters of a text, one by one.
pub fn chars_of(s: &str) -> (r: Vec<char>)
    ensures
        r@ == s@,
{
    let mut out: Vec<char> = Vec::new();
    for c in it: s.chars()
        invariant
            out@ == it.seq().take(it.index() as int),
            it.seq() == s@,
    {
        out.push(c);
    }
    out
}

/// The part of `path` behind its last full stop.
pub fn extension_of(path: &str) -> (r: Option<String>)
    ensures
        text_of(r) == extension(path@),
{
    let chars = chars_of(path);
    let n = chars.len();
    let mut i: usize = n;
    while i > 0
        invariant
            i <= n,
            n == path@.len(),
            chars@ == path@,
            forall|j: int| i <= j < n ==> path@[j] != '.',
        decreases i,
    {
        i -= 1;
        if chars[i] == '.' {
            let found = path.substring_char(i + 1, n);
            proof {
                lemma_extension_after_last_stop(path@, i as int);
                assert(path@.subrange(i + 1, n as int) =~= path@.skip(i + 1));
            }
            return Some(String::from_str(found));
        }
    }
    proof {
        lemma_extension_without_stop(path@);
    }
    None
}

/// What is left of `line` without `prefix` at its start; `None` where it
/// does not start with it.
pub open spec fn without_prefix(line: Seq<char>, prefix: Seq<char>) -> Option<Seq<char>> {
    if prefix.is_prefix_of(line) {
        Some(line.skip(prefix.len() as int))
    } else {
        None
    }
}

/// Takes `prefix` off the start of `line`.
pub fn strip_prefix(line: &str, prefix: &str) -> (r: Option<String>)
    ensures
        text_of(r) == without_prefix(line@, prefix@),
{
    let n = line.unicode_len();
    let p = prefix.unicode_len();
    if p > n {
        return None;
    }
    let start = String::from_str(line.substring_char(0, p));
    if text_is(&start, prefix) {
        let rest = line.substring_char(p, n);
        proof {
            assert(line@.subrange(p as int, n as int) =~= line@.skip(p as int));
            assert(prefix@ =~= line@.subrange(0, p as int));
        }
        Some(String::from_str(rest))
    } else {
        proof {
            if prefix@.is_prefix_of(line@) {
                assert(prefix@ =~= line@.subrange(0, p as int));
            }
        }
        None
    }
}

} // verus!
