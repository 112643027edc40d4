use vstd::prelude::*;
use vstd::utf8::{decode_utf8, valid_utf8};
use crate::error::{FieldError, InvalidStatus};
use crate::text::{trim_of, trim_text, utf8_text};
use crate::units::FieldValue;

verus! {

/// The pieces of `s` between the occurrences of `sep`; empty text gives one empty piece.
pub open spec fn split_on(s: Seq<char>, sep: char) -> Seq<Seq<char>>
    decreases s.len(),
{
    if s.len() == 0 {
        seq![Seq::empty()]
    } else {
        let rest = split_on(s.drop_last(), sep);
        if s.last() == sep {
            rest.push(Seq::empty())
        } else {
            rest.update(rest.len() - 1, rest.last().push(s.last()))
        }
    }
}

/// The position of the first `c` in `s`.
pub open spec fn find_first(s: Seq<char>, c: char) -> Option<int>
    decreases s.len(),
{
    if s.len() == 0 {
        None
    } else {
        match find_first(s.drop_last(), c) {
            Some(i) => Some(i),
            None => if s.last() == c { Some(s.len() - 1) } else { None },
        }
    }
}

/// A segment read as `key=value`, split at its first `=`.
pub open spec fn key_value(seg: Seq<char>) -> Option<(Seq<char>, Seq<char>)> {
    match find_first(seg, '=') {
        Some(i) => Some((seg.take(i), seg.skip(i + 1))),
        None => None,
    }
}

/// The `key=value` pairs of a comma-separated text, in order, or `None` where a
/// segment holds no `=`.
pub open spec fn entries_of(t: Seq<char>) -> Option<Seq<(Seq<char>, Seq<char>)>> {
    let segs = split_on(t, ',');
    if forall|i: int| 0 <= i < segs.len() ==> (#[trigger] key_value(segs[i])) is Some {
        Some(segs.map_values(|seg: Seq<char>| key_value(seg)->Some_0))
    } else {
        None
    }
}

/// The pairs of a status payload: UTF-8 text, trimmed, split on `,` and then on `=`.
pub open spec fn payload_entries(b: Seq<u8>) -> Option<Seq<(Seq<char>, Seq<char>)>> {
    if valid_utf8(b) {
        entries_of(trim_of(decode_utf8(b)))
    } else {
        None
    }
}

/// The mapping that inserting the pairs in order gives: the last value of a key wins.
pub open spec fn pairs_map(p: Seq<(Seq<char>, Seq<char>)>) -> Map<Seq<char>, Seq<char>>
    decreases p.len(),
{
    if p.len() == 0 {
        Map::empty()
    } else {
        pairs_map(p.drop_last()).insert(p.last().0, p.last().1)
    }
}

/// A decoded status payload: a mapping from keys to their text values.
#[derive(Debug)]
pub struct Message {
    entries: Vec<(String, String)>,
}

pub open spec fn pair_view(e: (String, String)) -> (Seq<char>, Seq<char>) {
    (e.0@, e.1@)
}

impl View for Message {
    type V = Map<Seq<char>, Seq<char>>;

    closed spec fn view(&self) -> Map<Seq<char>, Seq<char>> {
        pairs_map(self.entries@.map_values(|e: (String, String)| pair_view(e)))
    }
}

proof fn lemma_pairs_map_suffix(p: Seq<(Seq<char>, Seq<char>)>, j: int, k: Seq<char>)
    requires
        0 <= j <= p.len(),
        forall|t: int| j <= t < p.len() ==> (#[trigger] p[t]).0 != k,
    ensures
        pairs_map(p).contains_key(k) == pairs_map(p.take(j)).contains_key(k),
        pairs_map(p).contains_key(k) ==> pairs_map(p)[k] == pairs_map(p.take(j))[k],
    decreases p.len(),
{
    if j < p.len() {
        assert(p.drop_last().take(j) =~= p.take(j));
        lemma_pairs_map_suffix(p.drop_last(), j, k);
    } else {
        assert(p.take(j) =~= p);
    }
}

impl Message {
    /// Decodes a raw status payload into its key-value mapping.
    pub fn parse(raw_message: Vec<u8>) -> (r: Result<Message, InvalidStatus>)
        ensures
            match payload_entries(raw_message@) {
                Some(p) => r matches Ok(m) && m@ == pairs_map(p),
                None => r matches Err(InvalidStatus::InvalidFormat(b)) && b == raw_message,
            },
    {
        let text = match utf8_text(raw_message.as_slice()) {
            Some(t) => t,
            None => return Err(InvalidStatus::InvalidFormat(raw_message)),
        };
        let t = trim_text(text.as_str());
        match split_entries(t) {
            Some(entries) => Ok(Message { entries }),
            None => Err(InvalidStatus::InvalidFormat(raw_message)),
        }
    }

    /// The text value of `name`, if the payload holds it.
    pub fn lookup(&self, name: &str) -> (r: Option<&String>)
        ensures
            match r {
                Some(v) => self@.contains_key(name@) && v@ == self@[name@],
                None => !self@.contains_key(name@),
            },
    {
        let key = name.to_owned();
        let ghost p = self.entries@.map_values(|e: (String, String)| pair_view(e));
        let mut j: usize = self.entries.len();
        while j > 0
            invariant
                j <= self.entries.len(),
                p == self.entries@.map_values(|e: (String, String)| pair_view(e)),
                key@ == name@,
                forall|t: int| j <= t < p.len() ==> (#[trigger] p[t]).0 != key@,
            decreases j,
        {
            if self.entries[j - 1].0 == key {
                proof {
                    lemma_pairs_map_suffix(p, j as int, key@);
                    assert(p.take(j as int).drop_last() =~= p.take(j - 1));
                }
                return Some(&self.entries[j - 1].1);
            }
            j = j - 1;
        }
        proof {
            lemma_pairs_map_suffix(p, 0, key@);
        }
        None
    }

    /// Reads the value of `name` as `T`: `None` where the key is absent.
    pub fn get_value<T: FieldValue>(&self, name: &str) -> (r: Result<Option<T>, FieldError>)
        ensures
            r == (if self@.contains_key(name@) {
                match T::spec_parse(self@[name@]) {
                    Ok(v) => Ok(Some(v)),
                    Err(e) => Err(e),
                }
            } else {
                Ok(None)
            }),
    {
        match self.lookup(name) {
            None => Ok(None),
            Some(v) => match T::parse_text(v.as_str()) {
                Ok(x) => Ok(Some(x)),
                Err(e) => Err(e),
            },
        }
    }
}

/// Splits `t` into its `key=value` pairs.
fn split_entries(t: &str) -> (r: Option<Vec<(String, String)>>)
    ensures
        match entries_of(t@) {
            Some(p) => r matches Some(v) && v@.map_values(|e: (String, String)| pair_view(e)) == p,
            None => r is None,
        },
{
    let n = t.unicode_len();
    let mut out: Vec<(String, String)> = Vec::new();
    let mut start: usize = 0;
    let mut eq: Option<usize> = None;
    let mut i: usize = 0;
    while i < n
        invariant
            n == t@.len(),
            start <= i <= n,
            split_on(t@.take(i as int), ',').len() == out@.len() + 1,
            split_on(t@.take(i as int), ',').last() == t@.subrange(start as int, i as int),
            forall|q: int| 0 <= q < out@.len() ==> key_value(#[trigger] split_on(t@.take(i as int), ',')[q])
                == Some(pair_view(out@[q])),
            match find_first(t@.subrange(start as int, i as int), '=') {
                Some(x) => eq == Some((start + x) as usize),
                None => eq is None,
            },
        decreases n - i,
    {
        let c = t.get_char(i);
        let ghost before = split_on(t@.take(i as int), ',');
        let ghost seg = t@.subrange(start as int, i as int);
        assert(t@.take(i + 1).drop_last() =~= t@.take(i as int));
        assert(t@.take(i + 1).last() == c);
        if c == ',' {
            let (k, v) = match finish_segment(t, start, i, eq) {
                Some(kv) => kv,
                None => {
                    proof { lemma_entries_fail(t@, i as int, before.len() - 1); }
                    return None;
                },
            };
            out.push((k, v));
            start = i + 1;
            eq = None;
            assert(t@.subrange(start as int, i + 1) =~= Seq::<char>::empty());
        } else {
            assert(t@.subrange(start as int, i + 1) =~= seg.push(c));
            assert(t@.subrange(start as int, i + 1).drop_last() =~= seg);
            if c == '=' && eq.is_none() {
                eq = Some(i);
            }
        }
        i = i + 1;
    }
    assert(t@.take(n as int) =~= t@);
    let last = finish_segment(t, start, n, eq);
    match last {
        Some((k, v)) => {
            out.push((k, v));
            proof {
                let segs = split_on(t@, ',');
                assert forall|q: int| 0 <= q < segs.len() implies (#[trigger] key_value(segs[q])) is Some by {
                    if q < segs.len() - 1 {
                        assert(key_value(segs[q]) == Some(pair_view(out@[q])));
                    }
                };
                assert(out@.map_values(|e: (String, String)| pair_view(e))
                    =~= segs.map_values(|seg: Seq<char>| key_value(seg)->Some_0));
            }
            Some(out)
        },
        None => {
            proof { lemma_entries_fail(t@, n as int, split_on(t@, ',').len() - 1); }
            None
        },
    }
}

proof fn lemma_entries_fail(t: Seq<char>, i: int, q: int)
    requires
        0 <= i <= t.len(),
        0 <= q < split_on(t.take(i), ',').len(),
        key_value(split_on(t.take(i), ',')[q]) is None,
        i == t.len() || t[i] == ',',
    ensures
        entries_of(t) is None,
{
    lemma_split_prefix(t, i, q);
}

/// A finished piece of a prefix that ends before a separator stays a piece of the whole.
proof fn lemma_split_prefix(t: Seq<char>, i: int, q: int)
    requires
        0 <= i <= t.len(),
        0 <= q < split_on(t.take(i), ',').len(),
        i == t.len() || t[i] == ',',
    ensures
        q < split_on(t, ',').len(),
        split_on(t, ',')[q] == split_on(t.take(i), ',')[q],
    decreases t.len() - i,
{
    if i == t.len() {
        assert(t.take(i) =~= t);
    } else {
        assert(t.take(i + 1).drop_last() =~= t.take(i));
        assert(t.take(i + 1).last() == ',');
        lemma_split_keeps(t, i + 1, q);
    }
}

/// Pieces before the last piece of a prefix never change as the prefix grows.
proof fn lemma_split_keeps(t: Seq<char>, i: int, q: int)
    requires
        0 <= i <= t.len(),
        0 <= q < split_on(t.take(i), ',').len() - 1,
    ensures
        q < split_on(t, ',').len() - 1,
        split_on(t, ',')[q] == split_on(t.take(i), ',')[q],
    decreases t.len() - i,
{
    if i == t.len() {
        assert(t.take(i) =~= t);
    } else {
        assert(t.take(i + 1).drop_last() =~= t.take(i));
        lemma_split_keeps(t, i + 1, q);
    }
}

/// Turns the piece `t[start..end]`, whose first `=` is at `eq`, into a pair.
fn finish_segment(t: &str, start: usize, end: usize, eq: Option<usize>) -> (r: Option<(String, String)>)
    requires
        start <= end <= t@.len(),
        match find_first(t@.subrange(start as int, end as int), '=') {
            Some(x) => eq == Some((start + x) as usize),
            None => eq is None,
        },
    ensures
        match r {
            Some(kv) => key_value(t@.subrange(start as int, end as int)) == Some(pair_view(kv)),
            None => key_value(t@.subrange(start as int, end as int)) is None,
        },
{
    let ghost seg = t@.subrange(start as int, end as int);
    proof { lemma_find_first_range(seg, '='); }
    match eq {
        None => None,
        Some(e) => {
            let k = t.substring_char(start, e).to_owned();
            let v = t.substring_char(e + 1, end).to_owned();
            assert(k@ =~= seg.take(e - start));
            assert(v@ =~= seg.skip(e - start + 1));
            Some((k, v))
        },
    }
}

proof fn lemma_find_first_range(s: Seq<char>, c: char)
    ensures
        find_first(s, c) matches Some(i) ==> 0 <= i < s.len() && s[i] == c,
    decreases s.len(),
{
    if s.len() > 0 {
        lemma_find_first_range(s.drop_last(), c);
    }
}

/// The mapping of a pair list holds exactly the keys of the list, each with the
/// value of its last occurrence.
pub proof fn lemma_pairs_map_contents(p: Seq<(Seq<char>, Seq<char>)>)
    ensures
        forall|k: Seq<char>| pairs_map(p).contains_key(k)
            <==> exists|i: int| 0 <= i < p.len() && (#[trigger] p[i]).0 == k,
        forall|i: int| 0 <= i < p.len() && (forall|j: int| i < j < p.len() ==> (#[trigger] p[j]).0 != p[i].0)
            ==> pairs_map(p)[(#[trigger] p[i]).0] == p[i].1,
    decreases p.len(),
{
    if p.len() > 0 {
        let q = p.drop_last();
        lemma_pairs_map_contents(q);
        assert(pairs_map(p) == pairs_map(q).insert(p.last().0, p.last().1));
        assert forall|k: Seq<char>| pairs_map(p).contains_key(k)
            <==> exists|i: int| 0 <= i < p.len() && (#[trigger] p[i]).0 == k by {
            if pairs_map(p).contains_key(k) {
                if k == p.last().0 {
                    assert(p[p.len() - 1].0 == k);
                } else {
                    assert(pairs_map(q).contains_key(k));
                    let i = choose|i: int| 0 <= i < q.len() && (#[trigger] q[i]).0 == k;
                    assert(p[i] == q[i]);
                }
            }
            if exists|i: int| 0 <= i < p.len() && (#[trigger] p[i]).0 == k {
                let i = choose|i: int| 0 <= i < p.len() && (#[trigger] p[i]).0 == k;
                if i < q.len() {
                    assert(q[i] == p[i]);
                }
            }
        };
        assert forall|i: int| 0 <= i < p.len() && (forall|j: int| i < j < p.len() ==> (#[trigger] p[j]).0 != p[i].0)
            implies pairs_map(p)[(#[trigger] p[i]).0] == p[i].1 by {
            if i < q.len() {
                assert(q[i] == p[i]);
                assert(p[p.len() - 1].0 != p[i].0);
                assert forall|j: int| i < j < q.len() implies (#[trigger] q[j]).0 != q[i].0 by {
                    assert(q[j] == p[j]);
                };
            }
        };
    }
}

/// Parsing a well-formed payload gives a mapping whose keys are exactly the keys of
/// the payload, each with the text after the `=` of its last occurrence.
pub proof fn lemma_parse_keys_and_values(b: Seq<u8>)
    requires
        payload_entries(b) is Some,
    ensures
        ({
            let p = payload_entries(b)->Some_0;
            let segs = split_on(trim_of(decode_utf8(b)), ',');
            &&& p.len() == segs.len()
            &&& forall|i: int| 0 <= i < p.len() ==> Some(#[trigger] p[i]) == key_value(segs[i])
            &&& forall|k: Seq<char>| pairs_map(p).contains_key(k)
                <==> exists|i: int| 0 <= i < p.len() && (#[trigger] p[i]).0 == k
            &&& forall|i: int| 0 <= i < p.len() && (forall|j: int| i < j < p.len() ==> (#[trigger] p[j]).0 != p[i].0)
                ==> pairs_map(p)[(#[trigger] p[i]).0] == p[i].1
        }),
{
    let p = payload_entries(b)->Some_0;
    let segs = split_on(trim_of(decode_utf8(b)), ',');
    assert forall|i: int| 0 <= i < p.len() implies Some(#[trigger] p[i]) == key_value(segs[i]) by {
        assert(key_value(segs[i]) is Some);
    };
    lemma_pairs_map_contents(p);
}

/// A payload that is no valid UTF-8, or has a segment without `=`, decodes to no
/// pairs at all, so parsing it fails with the payload as the error.
pub proof fn lemma_malformed_payload(b: Seq<u8>, i: int)
    requires
        !valid_utf8(b) || (0 <= i < split_on(trim_of(decode_utf8(b)), ',').len()
            && find_first(split_on(trim_of(decode_utf8(b)), ',')[i], '=') is None),
    ensures
        payload_entries(b) is None,
{
    if valid_utf8(b) {
        assert(key_value(split_on(trim_of(decode_utf8(b)), ',')[i]) is None);
    }
}

} // verus!
