//! Character classification, decimal rendering, and substring facts used by
//! the argument validator and its diagnostic messages.

use vstd::prelude::*;
use vstd::string::StrSliceExecFns;
use vstd::string::StringExecFns;

verus! {

/// The Unicode code points with the White_Space property; `u` is a scalar
/// value obtained from a `char`.
pub open spec fn is_space_code(u: u32) -> bool {
    ||| u == 0x09
    ||| u == 0x0A
    ||| u == 0x0B
    ||| u == 0x0C
    ||| u == 0x0D
    ||| u == 0x20
    ||| u == 0x85
    ||| u == 0xA0
    ||| u == 0x1680
    ||| (0x2000 <= u && u <= 0x200A)
    ||| u == 0x2028
    ||| u == 0x2029
    ||| u == 0x202F
    ||| u == 0x205F
    ||| u == 0x3000
}

/// A whitespace character.
pub open spec fn is_space_char(c: char) -> bool {
    is_space_code(c as u32)
}

/// A blank text: empty or made of whitespace characters only.
pub open spec fn is_blank(s: Seq<char>) -> bool {
    forall|i: int| 0 <= i < s.len() ==> is_space_char(#[trigger] s[i])
}

/// Decides whether a character is whitespace.
pub fn char_is_space(c: char) -> (r: bool)
    ensures
        r == is_space_char(c),
{
    let u = c as u32;
    u == 0x09 || u == 0x0A || u == 0x0B || u == 0x0C || u == 0x0D || u == 0x20 || u == 0x85
        || u == 0xA0 || u == 0x1680 || (0x2000 <= u && u <= 0x200A) || u == 0x2028 || u == 0x2029
        || u == 0x202F || u == 0x205F || u == 0x3000
}

/// Decides whether a string is blank (empty or whitespace only).
pub fn str_is_blank(s: &str) -> (r: bool)
    ensures
        r == is_blank(s@),
{
    let len: usize = s.unicode_len();
    let mut i: usize = 0;
    while i < len
        invariant
            i <= len,
            len == s@.len(),
            forall|j: int| 0 <= j < i ==> is_space_char(#[trigger] s@[j]),
        decreases len - i,
    {
        let c = s.get_char(i);
        if !char_is_space(c) {
            assert(!is_blank(s@));
            return false;
        }
        i = i + 1;
    }
    true
}

/// The character for a single decimal digit.
pub open spec fn decimal_digit(d: nat) -> char {
    if d == 0 {
        '0'
    } else if d == 1 {
        '1'
    } else if d == 2 {
        '2'
    } else if d == 3 {
        '3'
    } else if d == 4 {
        '4'
    } else if d == 5 {
        '5'
    } else if d == 6 {
        '6'
    } else if d == 7 {
        '7'
    } else if d == 8 {
        '8'
    } else {
        '9'
    }
}

/// The usual decimal rendering of `n`, without leading zeros.
pub open spec fn decimal_text(n: nat) -> Seq<char>
    decreases n,
{
    if n < 10 {
        seq![decimal_digit(n)]
    } else {
        decimal_text(n / 10).push(decimal_digit(n % 10))
    }
}

/// The one-character string for a single decimal digit.
fn decimal_digit_str(d: usize) -> (r: &'static str)
    requires
        d < 10,
    ensures
        r@ == seq![decimal_digit(d as nat)],
{
    proof {
        reveal_strlit("0");
        reveal_strlit("1");
        reveal_strlit("2");
        reveal_strlit("3");
        reveal_strlit("4");
        reveal_strlit("5");
        reveal_strlit("6");
        reveal_strlit("7");
        reveal_strlit("8");
        reveal_strlit("9");
        assert("0"@ =~= seq![decimal_digit(0)]);
        assert("1"@ =~= seq![decimal_digit(1)]);
        assert("2"@ =~= seq![decimal_digit(2)]);
        assert("3"@ =~= seq![decimal_digit(3)]);
        assert("4"@ =~= seq![decimal_digit(4)]);
        assert("5"@ =~= seq![decimal_digit(5)]);
        assert("6"@ =~= seq![decimal_digit(6)]);
        assert("7"@ =~= seq![decimal_digit(7)]);
        assert("8"@ =~= seq![decimal_digit(8)]);
        assert("9"@ =~= seq![decimal_digit(9)]);
    }
    if d == 0 {
        "0"
    } else if d == 1 {
        "1"
    } else if d == 2 {
        "2"
    } else if d == 3 {
        "3"
    } else if d == 4 {
        "4"
    } else if d == 5 {
        "5"
    } else if d == 6 {
        "6"
    } else if d == 7 {
        "7"
    } else if d == 8 {
        "8"
    } else {
        "9"
    }
}

/// Appends the decimal rendering of `n` to `out`.
pub fn push_decimal(n: usize, out: &mut String)
    ensures
        final(out)@ == old(out)@ + decimal_text(n as nat),
    decreases n,
{
    if n >= 10 {
        push_decimal(n / 10, out);
    }
    let d: usize = n % 10;
    out.append(decimal_digit_str(d));
    proof {
        assert(out@ =~= old(out)@ + decimal_text(n as nat));
    }
}

/// `part` occurs contiguously somewhere inside `hay`.
pub open spec fn contains_text(hay: Seq<char>, part: Seq<char>) -> bool {
    exists|k: int|
        0 <= k && k + part.len() <= hay.len() && #[trigger] hay.subrange(
            k,
            k + part.len() as int,
        ) == part
}

/// Every text contains itself.
pub proof fn lemma_contains_self(part: Seq<char>)
    ensures
        contains_text(part, part),
{
    assert(part.subrange(0, 0 + part.len() as int) =~= part);
}

/// A text found in `a` is still found after appending `b` on the right.
pub proof fn lemma_contains_left(a: Seq<char>, b: Seq<char>, part: Seq<char>)
    requires
        contains_text(a, part),
    ensures
        contains_text(a + b, part),
{
    let k = choose|k: int|
        0 <= k && k + part.len() <= a.len() && #[trigger] a.subrange(k, k + part.len() as int)
            == part;
    assert((a + b).subrange(k, k + part.len() as int) =~= a.subrange(k, k + part.len() as int));
}

/// A text found in `b` is still found after appending `a` on the left.
pub proof fn lemma_contains_right(a: Seq<char>, b: Seq<char>, part: Seq<char>)
    requires
        contains_text(b, part),
    ensures
        contains_text(a + b, part),
{
    let k = choose|k: int|
        0 <= k && k + part.len() <= b.len() && #[trigger] b.subrange(k, k + part.len() as int)
            == part;
    let m = a.len() as int + k;
    assert((a + b).subrange(m, m + part.len() as int) =~= b.subrange(k, k + part.len() as int));
}

} // verus!
