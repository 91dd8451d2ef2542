use vstd::prelude::*;

verus! {

/// Whitespace ignored around the operator's input line: the Unicode
/// White_Space set, the same characters `str::trim` removes.
pub open spec fn is_space_char(c: char) -> bool {
    ||| 0x09 <= c as u32 <= 0x0D
    ||| c as u32 == 0x20
    ||| c as u32 == 0x85
    ||| c as u32 == 0xA0
    ||| c as u32 == 0x1680
    ||| 0x2000 <= c as u32 <= 0x200A
    ||| c as u32 == 0x2028
    ||| c as u32 == 0x2029
    ||| c as u32 == 0x202F
    ||| c as u32 == 0x205F
    ||| c as u32 == 0x3000
}

/// The operator's line, trimmed, is exactly the affirmative token "y": one
/// 'y' and nothing else but surrounding whitespace. Anything else declines.
pub open spec fn is_confirmation(s: Seq<char>) -> bool {
    exists|i: int|
        0 <= i < s.len() && #[trigger] s[i] == 'y' && (forall|k: int|
            0 <= k < s.len() && k != i ==> is_space_char(#[trigger] s[k]))
}

/// Whether the character at this position is gate whitespace.
fn is_space_at(input: &str, i: usize) -> (r: bool)
    requires
        i < input@.len(),
    ensures
        r == is_space_char(input@[i as int]),
{
    let c = input.get_char(i);
    let u = c as u32;
    (0x09 <= u && u <= 0x0D) || u == 0x20 || u == 0x85 || u == 0xA0 || u == 0x1680 || (0x2000
        <= u && u <= 0x200A) || u == 0x2028 || u == 0x2029 || u == 0x202F || u == 0x205F || u
        == 0x3000
}

/// The one-shot confirmation gate: proceed only if the operator's line,
/// trimmed, exactly equals the affirmative token.
pub fn confirmation_granted(input: &str) -> (r: bool)
    ensures
        r == is_confirmation(input@),
{
    let ghost s = input@;
    let n = input.unicode_len();
    let mut f: usize = 0;
    while f < n && is_space_at(input, f)
        invariant
            s == input@,
            f <= n,
            n as nat == s.len(),
            forall|k: int| 0 <= k < f ==> is_space_char(#[trigger] s[k]),
        decreases n - f,
    {
        f = f + 1;
    }
    if f == n {
        // Only whitespace: no position can hold the token.
        proof {
            assert forall|i: int| 0 <= i < s.len() implies s[i] != 'y' by {
                assert(is_space_char(s[i]));
            }
        }
        return false;
    }
    let c = input.get_char(f);
    if c != 'y' {
        // The first non-space character is wrong, so no position holds a
        // lone affirmative.
        proof {
            assert forall|i: int|
                !(0 <= i < s.len() && s[i] == 'y' && (forall|k: int|
                    0 <= k < s.len() && k != i ==> is_space_char(#[trigger] s[k]))) by {
                if 0 <= i < s.len() && s[i] == 'y' {
                    assert(i != f);
                    assert(!is_space_char(s[f as int]));
                }
            }
        }
        return false;
    }
    // Everything after the token must be whitespace.
    let mut g: usize = f + 1;
    while g < n && is_space_at(input, g)
        invariant
            s == input@,
            f < g <= n,
            n as nat == s.len(),
            s[f as int] == 'y',
            forall|k: int| 0 <= k < f ==> is_space_char(#[trigger] s[k]),
            forall|k: int| f < k < g ==> is_space_char(#[trigger] s[k]),
        decreases n - g,
    {
        g = g + 1;
    }
    if g == n {
        proof {
            assert(is_confirmation(s)) by {
                assert(s[f as int] == 'y');
                assert(forall|k: int|
                    0 <= k < s.len() && k != f ==> is_space_char(#[trigger] s[k]));
            }
        }
        true
    } else {
        // A second non-space character: whichever position a witness picked,
        // the other one refutes it.
        proof {
            assert(!is_space_char(s[g as int]));
            assert forall|i: int|
                !(0 <= i < s.len() && s[i] == 'y' && (forall|k: int|
                    0 <= k < s.len() && k != i ==> is_space_char(#[trigger] s[k]))) by {
                if 0 <= i < s.len() && s[i] == 'y' {
                    if i != g {
                        assert(!is_space_char(s[g as int]));
                    } else {
                        assert(i != f);
                        assert(!is_space_char(s[f as int]));
                    }
                }
            }
        }
        false
    }
}

} // verus!
