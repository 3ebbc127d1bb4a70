//! Immutable lookup tables supplied to rules at construction time.

use vstd::prelude::*;

use crate::text::{bytes_eq, find_byte, find_from, lemma_find_from, lower, sub_bytes,
    to_lowercase, trim, trim_bytes};

verus! {

/// The mapped value of the first entry whose key equals `key`.
pub open spec fn spec_lookup(entries: Seq<(Vec<u8>, Vec<u8>)>, key: Seq<u8>) -> Option<Seq<u8>>
    decreases entries.len(),
{
    if entries.len() == 0 {
        None
    } else if entries[0].0@ == key {
        Some(entries[0].1@)
    } else {
        spec_lookup(entries.skip(1), key)
    }
}

/// An immutable byte-string to byte-string mapping, looked up by exact
/// key match; the first entry for a key wins.
pub struct LookupTable {
    pub entries: Vec<(Vec<u8>, Vec<u8>)>,
}

impl LookupTable {
    /// A table holding the given entries.
    pub fn new(entries: Vec<(Vec<u8>, Vec<u8>)>) -> (r: LookupTable)
        ensures
            r.entries == entries,
    {
        LookupTable { entries }
    }

    /// The value mapped for `key`, if the table holds the key.
    pub fn get(&self, key: &Vec<u8>) -> (r: Option<&Vec<u8>>)
        ensures
            match r {
                Some(v) => spec_lookup(self.entries@, key@) == Some(v@),
                None => spec_lookup(self.entries@, key@) is None,
            },
    {
        let mut i: usize = 0;
        proof {
            assert(self.entries@.skip(0) =~= self.entries@);
        }
        while i < self.entries.len()
            invariant
                i <= self.entries@.len(),
                spec_lookup(self.entries@, key@) == spec_lookup(self.entries@.skip(i as int), key@),
            decreases self.entries@.len() - i,
        {
            proof {
                assert(self.entries@.skip(i as int)[0] == self.entries@[i as int]);
                assert(self.entries@.skip(i as int).skip(1) =~= self.entries@.skip(i + 1));
            }
            if bytes_eq(&self.entries[i].0, key) {
                return Some(&self.entries[i].1);
            }
            i = i + 1;
        }
        None
    }
}

/// The ghost images of a table's entries.
pub open spec fn entry_views(entries: Seq<(Vec<u8>, Vec<u8>)>) -> Seq<(Seq<u8>, Seq<u8>)> {
    entries.map_values(|e: (Vec<u8>, Vec<u8>)| (e.0@, e.1@))
}

/// The entry one table line yields: the part before the first `=`,
/// trimmed and lowercased, mapped to the part after it, trimmed. A line
/// without `=` or with an empty key yields nothing; an empty value
/// stands (it means known-bad with no suggested fix).
pub open spec fn spec_parse_line(line: Seq<u8>) -> Seq<(Seq<u8>, Seq<u8>)> {
    match find_from(line, 0x3d, 0) {
        None => Seq::empty(),
        Some(e) => {
            let key = lower(trim(line.take(e)));
            if key.len() == 0 {
                Seq::empty()
            } else {
                seq![(key, trim(line.skip(e + 1)))]
            }
        },
    }
}

/// The entries of a whole table text, one candidate line per line feed.
pub open spec fn spec_parse_entries(s: Seq<u8>) -> Seq<(Seq<u8>, Seq<u8>)>
    decreases s.len(),
    via spec_parse_entries_via
{
    match find_from(s, 0x0a, 0) {
        None => spec_parse_line(s),
        Some(i) => spec_parse_line(s.take(i)) + spec_parse_entries(s.skip(i + 1)),
    }
}

#[via_fn]
proof fn spec_parse_entries_via(s: Seq<u8>) {
    lemma_find_from(s, 0x0a, 0);
}

/// Parses one table line into `out`.
fn parse_line(line: &Vec<u8>, out: &mut Vec<(Vec<u8>, Vec<u8>)>)
    ensures
        entry_views(final(out)@) == entry_views(old(out)@) + spec_parse_line(line@),
{
    proof {
        lemma_find_from(line@, 0x3d, 0);
    }
    match find_byte(line, 0x3d, 0) {
        None => {},
        Some(e) => {
            let llen = line.len();
            let key = to_lowercase(&trim_bytes(line, 0, e));
            let value = trim_bytes(line, e + 1, llen);
            proof {
                assert(line@.subrange(0, e as int) =~= line@.take(e as int));
                assert(line@.subrange(e + 1, line@.len() as int) =~= line@.skip(e + 1));
            }
            if key.len() > 0 {
                out.push((key, value));
            }
        },
    }
    proof {
        assert(entry_views(out@) =~= entry_views(old(out)@) + spec_parse_line(line@));
    }
}

/// Parses a table text: one `key=value` entry per line.
pub fn parse_table(text: &Vec<u8>) -> (r: LookupTable)
    ensures
        entry_views(r.entries@) == spec_parse_entries(text@),
{
    let mut out: Vec<(Vec<u8>, Vec<u8>)> = Vec::new();
    let mut rest = crate::text::copy_bytes(text);
    let ghost all = spec_parse_entries(text@);
    let ghost mut acc = Seq::<(Seq<u8>, Seq<u8>)>::empty();
    let mut done = false;
    proof {
        assert(entry_views(out@) =~= acc);
    }
    while !done
        invariant
            entry_views(out@) == acc,
            !done ==> all == acc + spec_parse_entries(rest@),
            done ==> all == acc,
        decreases rest@.len() + if done {
            0int
        } else {
            1int
        },
    {
        let ghost rest0 = rest@;
        proof {
            lemma_find_from(rest0, 0x0a, 0);
        }
        let line: Vec<u8>;
        match find_byte(&rest, 0x0a, 0) {
            Some(i) => {
                let rlen = rest.len();
                line = sub_bytes(&rest, 0, i);
                let new_rest = sub_bytes(&rest, i + 1, rlen);
                rest = new_rest;
                proof {
                    assert(line@ =~= rest0.take(i as int));
                    assert(rest@ =~= rest0.skip(i + 1));
                    assert(spec_parse_entries(rest0) == spec_parse_line(line@)
                        + spec_parse_entries(rest@));
                }
            },
            None => {
                line = rest;
                rest = Vec::new();
                done = true;
                proof {
                    assert(spec_parse_entries(rest0) == spec_parse_line(line@));
                }
            },
        }
        let ghost pre = entry_views(out@);
        parse_line(&line, &mut out);
        proof {
            acc = acc + spec_parse_line(line@);
            if !done {
                assert(acc + spec_parse_entries(rest@) =~= pre + (spec_parse_line(line@)
                    + spec_parse_entries(rest@)));
            } else {
                assert(acc =~= pre + spec_parse_line(line@));
            }
        }
    }
    LookupTable::new(out)
}

} // verus!
