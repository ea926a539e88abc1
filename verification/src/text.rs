//! Small verified text helpers: equality, ASCII lowering and suffix tests
//! over `&str`, stated over the character-sequence views.

use vstd::prelude::*;

verus! {

/// Character-by-character string equality.
pub fn str_eq(a: &str, b: &str) -> (r: bool)
    ensures
        r == (a@ == b@),
{
    let la: usize = a.unicode_len();
    let lb: usize = b.unicode_len();
    if la != lb {
        return false;
    }
    let mut j: usize = 0;
    loop
        invariant_except_break
            0 <= j <= la,
            la as nat == a@.len(),
            lb as nat == b@.len(),
            la == lb,
            forall|k: int| 0 <= k < j ==> a@[k] == b@[k],
        ensures
            (j == la && forall|k: int| 0 <= k < j ==> a@[k] == b@[k]) || (j < la && a@[j as int]
                != b@[j as int]),
            la as nat == a@.len() && lb as nat == b@.len() && la == lb && 0 <= j <= la,
        decreases la - j,
    {
        if j == la {
            break;
        }
        if a.get_char(j) != b.get_char(j) {
            break;
        }
        j = j + 1;
    }
    if j == la {
        proof {
            assert(a@ =~= b@);
        }
        true
    } else {
        false
    }
}

/// An upper-case ASCII letter mapped to lower case; every other character
/// kept.
pub open spec fn lower_char(c: char) -> char {
    if 'A' <= c && c <= 'Z' {
        ((c as u8) + 32) as char
    } else {
        c
    }
}

/// A character sequence with its ASCII letters lowered.
pub open spec fn ascii_lower_seq(s: Seq<char>) -> Seq<char> {
    s.map(|i: int, c: char| lower_char(c))
}

/// Relies on `String::push`: appends the character to the end of the
/// string.
#[verifier::external_body]
fn push_char(s: &mut String, c: char)
    ensures
        final(s)@ == old(s)@.push(c),
{
    s.push(c)
}

/// Lowers the ASCII letters of a string, leaving every other character in
/// place.
pub fn lower_ascii_str(s: &str) -> (r: String)
    ensures
        r@ == ascii_lower_seq(s@),
{
    let len: usize = s.unicode_len();
    let mut out = String::new();
    let mut j: usize = 0;
    proof {
        assert(out@ =~= ascii_lower_seq(s@.take(0)));
    }
    while j < len
        invariant
            0 <= j <= len,
            len as nat == s@.len(),
            out@ == ascii_lower_seq(s@.take(j as int)),
        decreases len - j,
    {
        let c = s.get_char(j);
        let lc: char = if c >= 'A' && c <= 'Z' {
            ((c as u8) + 32) as char
        } else {
            c
        };
        proof {
            assert(lc == lower_char(s@[j as int]));
        }
        push_char(&mut out, lc);
        proof {
            assert(out@ =~= ascii_lower_seq(s@.take(j + 1)));
        }
        j = j + 1;
    }
    proof {
        assert(s@.take(len as int) =~= s@);
    }
    out
}

/// Whether `s` ends with the suffix `x`.
pub open spec fn seq_ends_with(s: Seq<char>, x: Seq<char>) -> bool {
    s.len() >= x.len() && s.skip(s.len() - x.len()) == x
}

/// Character-by-character suffix test.
pub fn str_ends_with(a: &str, b: &str) -> (r: bool)
    ensures
        r == seq_ends_with(a@, b@),
{
    let la: usize = a.unicode_len();
    let lb: usize = b.unicode_len();
    if la < lb {
        return false;
    }
    let off: usize = la - lb;
    let mut j: usize = 0;
    loop
        invariant_except_break
            0 <= j <= lb,
            la as nat == a@.len(),
            lb as nat == b@.len(),
            lb <= la,
            off == la - lb,
            forall|k: int| 0 <= k < j ==> a@[off + k] == b@[k],
        ensures
            (j == lb && forall|k: int| 0 <= k < j ==> a@[off + k] == b@[k]) || (j < lb && a@[off
                + j] != b@[j as int]),
            la as nat == a@.len() && lb as nat == b@.len() && lb <= la && off == la - lb && 0 <= j
                <= lb,
        decreases lb - j,
    {
        if j == lb {
            break;
        }
        if a.get_char(off + j) != b.get_char(j) {
            break;
        }
        j = j + 1;
    }
    if j == lb {
        proof {
            assert(a@.skip(a@.len() - b@.len()) =~= b@);
        }
        true
    } else {
        proof {
            if seq_ends_with(a@, b@) {
                assert(a@.skip(a@.len() - b@.len())[j as int] == b@[j as int]);
            }
        }
        false
    }
}

} // verus!
