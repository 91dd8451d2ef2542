use vstd::prelude::*;

use crate::errors::TagError;

verus! {

/// Whether a character is a decimal digit.
pub open spec fn is_digit_char(c: char) -> bool {
    48 <= c as u32 <= 57
}

/// The numeric value of one digit character.
pub open spec fn digit_val(c: char) -> nat
    recommends
        is_digit_char(c),
{
    (c as u32 - 48) as nat
}

/// The value of a sequence of digit characters, most significant first.
pub open spec fn digits_value(s: Seq<char>) -> nat
    decreases s.len(),
{
    if s.len() == 0 {
        0
    } else {
        digits_value(s.drop_last()) * 10 + digit_val(s.last())
    }
}

/// Whether the name holds any decimal digit at all.
pub open spec fn has_digit(s: Seq<char>) -> bool {
    exists|i: int| 0 <= i < s.len() && is_digit_char(s[i])
}

/// The positions `i..j` are the first contiguous run of digits in `s`: all
/// digits, nothing but non-digits before it, and ended by the end of the name
/// or a non-digit.
pub open spec fn is_first_run(s: Seq<char>, i: int, j: int) -> bool {
    &&& 0 <= i < j <= s.len()
    &&& forall|k: int| i <= k < j ==> is_digit_char(#[trigger] s[k])
    &&& forall|k: int| 0 <= k < i ==> !is_digit_char(#[trigger] s[k])
    &&& (j == s.len() || !is_digit_char(s[j]))
}

/// The numeric value of the first digit run of a name that has one.
pub open spec fn run_value(s: Seq<char>) -> nat {
    let (i, j) = choose|i: int, j: int| is_first_run(s, i, j);
    digits_value(s.subrange(i, j))
}

/// A track number can be extracted from the name: it has a digit run and the
/// run's value fits an unsigned 16-bit number.
pub open spec fn extractable(s: Seq<char>) -> bool {
    has_digit(s) && run_value(s) <= u16::MAX
}

/// There is only one first digit run.
proof fn lemma_first_run_unique(s: Seq<char>, i1: int, j1: int, i2: int, j2: int)
    requires
        is_first_run(s, i1, j1),
        is_first_run(s, i2, j2),
    ensures
        i1 == i2,
        j1 == j2,
{
    assert(is_digit_char(s[i1]));
    assert(is_digit_char(s[i2]));
    assert(i1 == i2);
    if j1 < j2 {
        assert(is_digit_char(s[j1]));
    }
    if j2 < j1 {
        assert(is_digit_char(s[j2]));
    }
}

/// Ties a concrete first run to the `run_value` chosen by the specification.
pub proof fn lemma_run_value(s: Seq<char>, i: int, j: int)
    requires
        is_first_run(s, i, j),
    ensures
        has_digit(s),
        run_value(s) == digits_value(s.subrange(i, j)),
{
    assert(is_digit_char(s[i]));
    assert(has_digit(s));
    let (ci, cj) = choose|ci: int, cj: int| is_first_run(s, ci, cj);
    lemma_first_run_unique(s, i, j, ci, cj);
}

/// Extends a partial digit run to the full one.
proof fn find_run_end(s: Seq<char>, i: int, m: int) -> (j: int)
    requires
        0 <= i <= m <= s.len(),
        forall|k: int| i <= k < m ==> is_digit_char(#[trigger] s[k]),
    ensures
        m <= j <= s.len(),
        forall|k: int| i <= k < j ==> is_digit_char(#[trigger] s[k]),
        j == s.len() || !is_digit_char(s[j]),
    decreases s.len() - m,
{
    if m == s.len() {
        m
    } else if !is_digit_char(s[m]) {
        m
    } else {
        find_run_end(s, i, m + 1)
    }
}

/// One more digit multiplies the value by ten and adds the digit.
proof fn lemma_digits_value_step(s: Seq<char>, i: int, j: int)
    requires
        0 <= i <= j < s.len(),
    ensures
        digits_value(s.subrange(i, j + 1)) == digits_value(s.subrange(i, j)) * 10 + digit_val(
            s[j],
        ),
{
    assert(s.subrange(i, j + 1).drop_last() =~= s.subrange(i, j));
    assert(s.subrange(i, j + 1).last() == s[j]);
}

/// A digit run's value never shrinks as the run is extended.
proof fn lemma_digits_value_grows(s: Seq<char>, i: int, j1: int, j2: int)
    requires
        0 <= i <= j1 <= j2 <= s.len(),
    ensures
        digits_value(s.subrange(i, j1)) <= digits_value(s.subrange(i, j2)),
    decreases j2 - j1,
{
    if j1 < j2 {
        lemma_digits_value_grows(s, i, j1, j2 - 1);
        lemma_digits_value_step(s, i, j2 - 1);
    }
}

/// Position `i` holds the name's last dot: the one that separates the stem
/// from the extension.
pub open spec fn is_last_dot(s: Seq<char>, i: int) -> bool {
    0 <= i < s.len() && s[i] == '.' && (forall|j: int| i < j < s.len() ==> s[j] != '.')
}

/// The name without its extension: everything before the last dot, or the
/// whole name if it has none.
pub open spec fn spec_stem(s: Seq<char>) -> Seq<char> {
    if exists|i: int| is_last_dot(s, i) {
        s.subrange(0, choose|i: int| is_last_dot(s, i))
    } else {
        s
    }
}

/// Cuts a filename down to its stem, so that digits of the extension itself
/// never count as a track number.
pub fn stem_of_name(name: &str) -> (r: &str)
    ensures
        r@ == spec_stem(name@),
{
    let ghost s = name@;
    let n = name.unicode_len();
    let mut i: usize = n;
    while i > 0
        invariant
            s == name@,
            i <= n,
            n as nat == s.len(),
            forall|j: int| i <= j < s.len() ==> s[j] != '.',
        decreases i,
    {
        let c = name.get_char(i - 1);
        if c == '.' {
            proof {
                assert(is_last_dot(s, i as int - 1));
                let w = choose|w: int| is_last_dot(s, w);
                if w < i as int - 1 {
                    assert(s[i as int - 1] != '.');
                }
                if w > i as int - 1 {
                    assert(s[w] != '.');
                }
                assert(spec_stem(s) == s.subrange(0, i as int - 1));
            }
            return name.substring_char(0, i - 1);
        }
        i = i - 1;
    }
    proof {
        if exists|w: int| is_last_dot(s, w) {
            let w = choose|w: int| is_last_dot(s, w);
            assert(s[w] != '.');
        }
    }
    name
}

/// Whether the character at this position of the name is a decimal digit.
fn is_digit_at(name: &str, i: usize) -> (r: bool)
    requires
        i < name@.len(),
    ensures
        r == is_digit_char(name@[i as int]),
{
    let c = name.get_char(i);
    let cu = c as u32;
    48 <= cu && cu <= 57
}

/// Scans a filename for its first contiguous run of decimal digits and parses
/// it as an unsigned 16-bit track number. Fails with a `TrackExtraction`
/// error if no digit run exists or the run's value does not fit.
pub fn extract_track_number(name: &str) -> (r: Result<u16, TagError>)
    ensures
        r is Ok <==> extractable(name@),
        r matches Ok(v) ==> v == run_value(name@),
        r matches Err(e) ==> e matches TagError::TrackExtraction { name: n } && n@ == name@,
{
    let ghost s = name@;
    let n = name.unicode_len();
    let mut i: usize = 0;
    while i < n && !is_digit_at(name, i)
        invariant
            s == name@,
            i <= n,
            n as nat == s.len(),
            forall|k: int| 0 <= k < i ==> !is_digit_char(#[trigger] s[k]),
        decreases n - i,
    {
        i = i + 1;
    }
    if i == n {
        proof {
            assert(!has_digit(s));
        }
        return Err(TagError::TrackExtraction { name: name.to_owned() });
    }
    // s[i] is the first digit; consume it and the rest of the run.
    let c0 = name.get_char(i);
    let mut v: u32 = c0 as u32 - 48;
    let mut j: usize = i + 1;
    proof {
        assert(digits_value(Seq::<char>::empty()) == 0);
        assert(s.subrange(i as int, j as int).drop_last() =~= Seq::<char>::empty());
        assert(s.subrange(i as int, j as int).last() == s[i as int]);
        assert(digits_value(s.subrange(i as int, j as int)) == v as nat);
    }
    while j < n && is_digit_at(name, j)
        invariant
            s == name@,
            0 <= i < j <= n,
            n as nat == s.len(),
            is_digit_char(s[i as int]),
            forall|k: int| 0 <= k < i ==> !is_digit_char(#[trigger] s[k]),
            forall|k: int| i <= k < j ==> is_digit_char(#[trigger] s[k]),
            v <= u16::MAX,
            v as nat == digits_value(s.subrange(i as int, j as int)),
        decreases n - j,
    {
        let c = name.get_char(j);
        let d: u32 = c as u32 - 48;
        let next: u32 = v * 10 + d;
        proof {
            lemma_digits_value_step(s, i as int, j as int);
        }
        if next > 65535 {
            // The run's full value can only grow from here, so it cannot fit.
            proof {
                let jr = find_run_end(s, i as int, j as int + 1);
                assert(is_first_run(s, i as int, jr));
                lemma_run_value(s, i as int, jr);
                lemma_digits_value_grows(s, i as int, j as int + 1, jr);
            }
            return Err(TagError::TrackExtraction { name: name.to_owned() });
        }
        v = next;
        j = j + 1;
    }
    proof {
        assert(is_first_run(s, i as int, j as int));
        lemma_run_value(s, i as int, j as int);
    }
    Ok(v as u16)
}

} // verus!
