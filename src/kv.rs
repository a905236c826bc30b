//! `key=value` tokens and the JSON body built from them.
use vstd::prelude::*;

use crate::error::HttpieError;

verus! {

/// Whether `s` holds an `=` anywhere.
pub open spec fn has_separator(s: Seq<char>) -> bool {
    exists|i: int| 0 <= i < s.len() && s[i] == '='
}

/// Whether `i` is the position of the first `=` in `s`.
pub open spec fn is_first_separator(s: Seq<char>, i: int) -> bool {
    &&& 0 <= i < s.len()
    &&& s[i] == '='
    &&& forall|j: int| 0 <= j < i ==> s[j] != '='
}

/// The position of the first `=` in `s`, when `s` has one.
pub open spec fn separator_index(s: Seq<char>) -> int {
    choose|i: int| is_first_separator(s, i)
}

/// What precedes the first `=` of `s`.
pub open spec fn key_of(s: Seq<char>) -> Seq<char> {
    s.subrange(0, separator_index(s))
}

/// What follows the first `=` of `s`, further `=` included.
pub open spec fn value_of(s: Seq<char>) -> Seq<char> {
    s.subrange(separator_index(s) + 1, s.len() as int)
}

/// The first `=` of a string is at one position only.
proof fn lemma_separator_index(s: Seq<char>, i: int)
    requires
        is_first_separator(s, i),
    ensures
        separator_index(s) == i,
{
    let j = separator_index(s);
    assert(is_first_separator(s, j));
    if j < i {
        assert(s[j] != '=');
    } else if i < j {
        assert(s[i] != '=');
    }
}

/// One `key=value` token, split on its first `=`.
#[derive(Clone, Debug)]
pub struct KvPair {
    pub k: String,
    pub v: String,
}

impl KvPair {
    /// Splits `s` on its first `=`: the key is what precedes it, the value all that follows,
    /// further `=` included. A token without `=` is a validation error naming the token.
    pub fn from_str(s: &str) -> (r: Result<KvPair, HttpieError>)
        ensures
            r is Ok <==> has_separator(s@),
            r matches Ok(p) ==> p.k@ == key_of(s@) && p.v@ == value_of(s@),
            r matches Err(e) ==> (e matches HttpieError::Validation { input } && input@ == s@),
    {
        let n = s.unicode_len();
        let mut i: usize = 0;
        while i < n
            invariant
                n == s@.len(),
                i <= n,
                forall|j: int| 0 <= j < i ==> s@[j] != '=',
            decreases n - i,
        {
            if s.get_char(i) == '=' {
                let k = s.substring_char(0, i).to_string();
                let v = s.substring_char(i + 1, n).to_string();
                proof {
                    lemma_separator_index(s@, i as int);
                }
                return Ok(KvPair { k, v });
            }
            i = i + 1;
        }
        Err(HttpieError::Validation { input: s.to_string() })
    }
}

/// Parses one `key=value` token of a POST request's body.
pub fn parse_kv_pair(s: &str) -> (r: Result<KvPair, HttpieError>)
    ensures
        r is Ok <==> has_separator(s@),
        r matches Ok(p) ==> p.k@ == key_of(s@) && p.v@ == value_of(s@),
        r matches Err(e) ==> (e matches HttpieError::Validation { input } && input@ == s@),
{
    KvPair::from_str(s)
}

/// A key and a value, as sequences of characters.
pub type Entry = (Seq<char>, Seq<char>);

/// The key and value of one parsed token.
pub open spec fn pair_view(p: KvPair) -> Entry {
    (p.k@, p.v@)
}

/// The view of a list of body entries.
pub open spec fn entries_view(es: Seq<(String, String)>) -> Seq<Entry> {
    es.map_values(|e: (String, String)| (e.0@, e.1@))
}

/// The mapping that inserting `es` in order gives: a later entry overwrites an earlier
/// one with the same key.
pub open spec fn body_map(es: Seq<Entry>) -> Map<Seq<char>, Seq<char>>
    decreases es.len(),
{
    if es.len() == 0 {
        Map::empty()
    } else {
        body_map(es.drop_last()).insert(es.last().0, es.last().1)
    }
}

/// No key occurs twice in `es`.
pub open spec fn keys_unique(es: Seq<Entry>) -> bool {
    forall|i: int, j: int| 0 <= i < j < es.len() ==> es[i].0 != es[j].0
}

/// Last write wins: the value that the mapping holds for a key is that of the last entry
/// with that key.
pub proof fn lemma_last_write_wins(es: Seq<Entry>, i: int)
    requires
        0 <= i < es.len(),
        forall|j: int| i < j < es.len() ==> es[j].0 != es[i].0,
    ensures
        body_map(es).contains_key(es[i].0),
        body_map(es)[es[i].0] == es[i].1,
    decreases es.len(),
{
    if i < es.len() - 1 {
        let d = es.drop_last();
        lemma_last_write_wins(d, i);
    }
}

/// In a list without repeated keys, replacing the value at one key is an insertion
/// into its mapping.
proof fn lemma_update_is_insert(es: Seq<Entry>, j: int, v: Seq<char>)
    requires
        keys_unique(es),
        0 <= j < es.len(),
    ensures
        body_map(es.update(j, (es[j].0, v))) == body_map(es).insert(es[j].0, v),
    decreases es.len(),
{
    let k = es[j].0;
    let u = es.update(j, (k, v));
    let last = es.len() - 1;
    if j == last {
        assert(u.drop_last() =~= es.drop_last());
        assert(body_map(u) =~= body_map(es).insert(k, v));
    } else {
        let d = es.drop_last();
        assert(u.drop_last() =~= d.update(j, (d[j].0, v)));
        lemma_update_is_insert(d, j, v);
        assert(es[last].0 != k);
        assert(body_map(u) =~= body_map(es).insert(k, v));
    }
}

/// The body of a POST request: one entry per distinct key, in the order in which keys
/// first occur, each with the value of the last token that names it.
pub fn body_entries(pairs: &Vec<KvPair>) -> (r: Vec<(String, String)>)
    ensures
        keys_unique(entries_view(r@)),
        body_map(entries_view(r@)) == body_map(pairs@.map_values(|p: KvPair| pair_view(p))),
{
    let ghost pv = pairs@.map_values(|p: KvPair| pair_view(p));
    let mut out: Vec<(String, String)> = Vec::new();
    let mut i: usize = 0;
    while i < pairs.len()
        invariant
            i <= pairs.len(),
            pv == pairs@.map_values(|p: KvPair| pair_view(p)),
            keys_unique(entries_view(out@)),
            body_map(entries_view(out@)) == body_map(pv.take(i as int)),
        decreases pairs.len() - i,
    {
        let p = &pairs[i];
        let ghost before = entries_view(out@);
        assert(pv.take(i + 1).drop_last() =~= pv.take(i as int));
        let mut j: usize = 0;
        let mut found = false;
        while j < out.len() && !found
            invariant
                j <= out.len(),
                found ==> j < out.len() && out@[j as int].0@ == p.k@,
                !found ==> forall|m: int| 0 <= m < j ==> out@[m].0@ != p.k@,
            decreases out.len() - j + (if found { 0int } else { 1int }),
        {
            if out[j].0 == p.k {
                found = true;
            } else {
                j = j + 1;
            }
        }
        let entry = (p.k.clone(), p.v.clone());
        if found {
            let ghost old_out = out@;
            out.remove(j);
            out.insert(j, entry);
            assert(out@ =~= old_out.update(j as int, entry));
            assert(entries_view(out@) =~= before.update(j as int, (before[j as int].0, p.v@)));
            proof {
                lemma_update_is_insert(before, j as int, p.v@);
            }
        } else {
            let ghost old_out = out@;
            out.push(entry);
            assert(entries_view(out@) =~= before.push((p.k@, p.v@)));
            assert(entries_view(out@).drop_last() =~= before);
        }
        i = i + 1;
    }
    assert(pv.take(pairs.len() as int) =~= pv);
    out
}

} // verus!
