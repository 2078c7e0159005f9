//! The name of the file written for a given input.

use vstd::prelude::*;

verus! {

/// Index of the last '.' among the first `k` characters of `s`, or -1 when
/// there is none.
pub open spec fn last_dot_before(s: Seq<char>, k: int) -> int
    decreases k,
{
    if k <= 0 {
        -1
    } else if s[k - 1] == '.' {
        k - 1
    } else {
        last_dot_before(s, k - 1)
    }
}

/// `name` with everything from its last '.' on replaced by ".mid", or with
/// ".mid" appended when it has no '.'.
pub open spec fn output_filename(name: Seq<char>) -> Seq<char> {
    let d = last_dot_before(name, name.len() as int);
    let stem = if d < 0 {
        name
    } else {
        name.subrange(0, d)
    };
    stem + seq!['.', 'm', 'i', 'd']
}

proof fn lemma_last_dot_bounds(s: Seq<char>, k: int)
    requires
        0 <= k <= s.len(),
    ensures
        -1 <= last_dot_before(s, k) < k,
    decreases k,
{
    if k > 0 {
        lemma_last_dot_bounds(s, k - 1);
    }
}

/// Derives the output file name from the input path: the extension after
/// the path's last '.', if any, gives way to ".mid".
pub fn generate_output_filename(input_name: &String) -> (r: String)
    ensures
        r@ == output_filename(input_name@),
{
    let s = input_name.as_str();
    let len = s.unicode_len();
    let mut i: usize = len;
    let mut cut: usize = len;
    let mut found = false;
    while i > 0 && !found
        invariant
            i <= len == s@.len(),
            s@ == input_name@,
            !found ==> cut == len && last_dot_before(s@, len as int) == last_dot_before(
                s@,
                i as int,
            ),
            found ==> cut as int == last_dot_before(s@, len as int) && cut < len,
        decreases i + if found {
            0int
        } else {
            1
        },
    {
        if s.get_char(i - 1) == '.' {
            cut = i - 1;
            found = true;
        } else {
            i = i - 1;
        }
    }
    proof {
        lemma_last_dot_bounds(s@, len as int);
        reveal_strlit(".mid");
    }
    let stem = s.substring_char(0, cut);
    let r = String::from_str(stem).concat(".mid");
    assert(r@ =~= output_filename(input_name@));
    r
}

} // verus!
