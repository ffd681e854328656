//! Coordinate-pair parsing: a geolocation response carries the position
//! as a single "latitude,longitude" string, split here on its first comma.

use vstd::prelude::*;

verus! {

/// True when `s` holds at least one comma.
pub open spec fn has_comma(s: Seq<char>) -> bool {
    exists|i: int| 0 <= i < s.len() && s[i] == ','
}

/// Index of the first comma of `s` at or after `from`; `s.len()` when
/// no comma follows.
pub open spec fn first_comma_from(s: Seq<char>, from: int) -> int
    decreases s.len() - from,
{
    if from < 0 || from >= s.len() {
        s.len() as int
    } else if s[from] == ',' {
        from
    } else {
        first_comma_from(s, from + 1)
    }
}

/// Index of the first comma of `s`; `s.len()` when there is none.
pub open spec fn first_comma(s: Seq<char>) -> int {
    first_comma_from(s, 0)
}

/// Everything before the first comma: the latitude half.
pub open spec fn lat_of(s: Seq<char>) -> Seq<char> {
    s.subrange(0, first_comma(s))
}

/// Everything after the first comma: the longitude half.
pub open spec fn long_of(s: Seq<char>) -> Seq<char> {
    s.subrange(first_comma(s) + 1, s.len() as int)
}

proof fn lemma_first_comma_from_props(s: Seq<char>, from: int)
    requires
        0 <= from <= s.len(),
    ensures
        from <= first_comma_from(s, from) <= s.len(),
        first_comma_from(s, from) < s.len() ==> s[first_comma_from(s, from)] == ',',
        forall|j: int| from <= j < first_comma_from(s, from) ==> s[j] != ',',
        (exists|i: int| from <= i < s.len() && s[i] == ',') <==> first_comma_from(s, from) < s.len(),
    decreases s.len() - from,
{
    if from < s.len() && s[from] != ',' {
        lemma_first_comma_from_props(s, from + 1);
    }
}

/// The first comma's index is in range, points at a comma when one
/// exists, and nothing before it is a comma.
pub proof fn lemma_first_comma_props(s: Seq<char>)
    ensures
        0 <= first_comma(s) <= s.len(),
        first_comma(s) < s.len() ==> s[first_comma(s)] == ',',
        forall|j: int| 0 <= j < first_comma(s) ==> s[j] != ',',
        has_comma(s) <==> first_comma(s) < s.len(),
{
    lemma_first_comma_from_props(s, 0);
}

/// Splitting on the first comma yields exactly two pieces: they
/// reassemble, with the comma between them, to the whole input, and the
/// latitude piece holds no comma.
pub proof fn lemma_split_reconstructs(s: Seq<char>)
    requires
        has_comma(s),
    ensures
        lat_of(s) + seq![','] + long_of(s) =~= s,
        forall|j: int| 0 <= j < lat_of(s).len() ==> lat_of(s)[j] != ',',
{
    lemma_first_comma_props(s);
}

/// Splits a "latitude,longitude" pair on its first comma. Returns
/// `None`, rather than failing, exactly when the string holds no comma.
pub fn split_coords(loc: &str) -> (r: Option<(String, String)>)
    ensures
        r is Some <==> has_comma(loc@),
        r matches Some(p) ==> p.0@ == lat_of(loc@) && p.1@ == long_of(loc@),
{
    let n = loc.unicode_len();
    let mut i: usize = 0;
    while i < n
        invariant
            n == loc@.len(),
            i <= n,
            forall|j: int| 0 <= j < i ==> loc@[j] != ',',
        decreases n - i,
    {
        if loc.get_char(i) == ',' {
            proof {
                lemma_first_comma_props(loc@);
            }
            let lat = loc.substring_char(0, i);
            let long = loc.substring_char(i + 1, n);
            return Some((String::from_str(lat), String::from_str(long)));
        }
        i += 1;
    }
    proof {
        lemma_first_comma_props(loc@);
    }
    None
}

} // verus!
