//! Stable id generation and validation.
use vstd::prelude::*;
use crate::text::{chars_of, concat, owned, zero_padded, zero_padded_string};

verus! {

/// Whether `c` is one of the characters a stable id may hold: `[A-Za-z0-9_-]`.
pub open spec fn is_id_char(c: char) -> bool {
    ('a' <= c && c <= 'z') || ('A' <= c && c <= 'Z') || ('0' <= c && c <= '9') || c == '_'
        || c == '-'
}

/// Ids usable as database keys and in URLs: non-empty, safe characters only.
pub open spec fn valid_id(s: Seq<char>) -> bool {
    s.len() > 0 && forall|i: int| 0 <= i < s.len() ==> is_id_char(#[trigger] s[i])
}

fn id_char(c: char) -> (b: bool)
    ensures
        b == is_id_char(c),
{
    ('a' <= c && c <= 'z') || ('A' <= c && c <= 'Z') || ('0' <= c && c <= '9') || c == '_' || c
        == '-'
}

/// Returns true if `id` is non-empty and contains only safe characters
/// (`[A-Za-z0-9_-]`). Used to keep ids usable as DB keys and in URLs.
pub fn validate_id(id: &str) -> (b: bool)
    ensures
        b == valid_id(id@),
{
    let v = chars_of(id);
    let mut i: usize = 0;
    while i < v.len()
        invariant
            v@ == id@,
            i <= v@.len(),
            forall|k: int| 0 <= k < i ==> is_id_char(#[trigger] v@[k]),
        decreases v@.len() - i,
    {
        if !id_char(v[i]) {
            return false;
        }
        i = i + 1;
    }
    v.len() > 0
}

/// The id `prop_NNNN` for `sequence`, zero-padded to four digits.
pub open spec fn prop_id(sequence: nat) -> Seq<char> {
    seq!['p', 'r', 'o', 'p', '_'] + zero_padded(sequence, 4)
}

/// Generates a fresh prop id like `prop_0042`. Not unique by itself — the
/// caller is responsible for ensuring no collision with existing ids.
pub fn make_prop_id(sequence: u32) -> (id: String)
    ensures
        id@ == prop_id(sequence as nat),
{
    let prefix = owned("prop_");
    proof {
        reveal_strlit("prop_");
    }
    let digits = zero_padded_string(sequence as u64, 4);
    let id = concat(prefix, digits.as_str());
    assert(id@ =~= prop_id(sequence as nat));
    id
}

} // verus!
