//! String building blocks shared by the message formats of this crate.

use vstd::prelude::*;

verus! {

/// Whether two string slices hold the same characters.
pub fn same_text(a: &str, b: &str) -> (same: bool)
    ensures
        same == (a@ == b@),
{
    String::from_str(a) == String::from_str(b)
}

/// Whether `c` has Unicode's `White_Space` property: what std's
/// `char::is_whitespace` answers for it.
pub uninterp spec fn is_white_space(c: char) -> bool;

/// How many characters at the front of `s` are white space.
pub open spec fn leading_space(s: Seq<char>) -> nat
    decreases s.len(),
{
    if s.len() > 0 && is_white_space(s[0]) {
        1 + leading_space(s.drop_first())
    } else {
        0
    }
}

/// How many characters at the back of `s` are white space.
pub open spec fn trailing_space(s: Seq<char>) -> nat
    decreases s.len(),
{
    if s.len() > 0 && is_white_space(s.last()) {
        1 + trailing_space(s.drop_last())
    } else {
        0
    }
}

/// `s` without the white space at its front and at its back.
pub open spec fn trimmed(s: Seq<char>) -> Seq<char> {
    let front = leading_space(s);
    if front == s.len() {
        Seq::empty()
    } else {
        s.subrange(front as int, s.len() - trailing_space(s))
    }
}

/// The white space that `leading_space` counts is all there is at the front:
/// the characters it counts are white space, and the next one is not.
pub proof fn lemma_leading_space(s: Seq<char>)
    ensures
        leading_space(s) <= s.len(),
        forall|i: int| 0 <= i < leading_space(s) ==> is_white_space(#[trigger] s[i]),
        leading_space(s) < s.len() ==> !is_white_space(s[leading_space(s) as int]),
    decreases s.len(),
{
    if s.len() > 0 && is_white_space(s[0]) {
        let rest = s.drop_first();
        lemma_leading_space(rest);
        assert forall|i: int| 0 <= i < leading_space(s) implies is_white_space(#[trigger] s[i]) by {
            if i > 0 {
                assert(s[i] == rest[i - 1]);
            }
        }
    }
}

/// The same at the back, for `trailing_space`.
pub proof fn lemma_trailing_space(s: Seq<char>)
    ensures
        trailing_space(s) <= s.len(),
        forall|i: int|
            s.len() - trailing_space(s) <= i < s.len() ==> is_white_space(#[trigger] s[i]),
        trailing_space(s) < s.len() ==> !is_white_space(s[s.len() - trailing_space(s) - 1]),
    decreases s.len(),
{
    if s.len() > 0 && is_white_space(s.last()) {
        let rest = s.drop_last();
        lemma_trailing_space(rest);
        assert forall|i: int| s.len() - trailing_space(s) <= i < s.len() implies is_white_space(
            #[trigger] s[i],
        ) by {
            if i < s.len() - 1 {
                assert(s[i] == rest[i]);
            }
        }
    }
}

/// What is left after trimming is a stretch of the text, with white space
/// only before and after it, and it neither begins nor ends with white
/// space.
pub proof fn lemma_trimmed_is_the_core(s: Seq<char>)
    ensures
        leading_space(s) + trimmed(s).len() + trailing_space(s) == s.len() || trimmed(s).len() == 0,
        trimmed(s).len() > 0 ==> trimmed(s) == s.subrange(
            leading_space(s) as int,
            s.len() - trailing_space(s),
        ),
        trimmed(s).len() > 0 ==> !is_white_space(trimmed(s).first()) && !is_white_space(
            trimmed(s).last(),
        ),
        trimmed(s).len() == 0 <==> leading_space(s) == s.len(),
{
    lemma_leading_space(s);
    lemma_trailing_space(s);
}

/// Trimming what is trimmed changes nothing.
pub proof fn lemma_trimmed_twice(s: Seq<char>)
    ensures
        trimmed(trimmed(s)) == trimmed(s),
{
    lemma_trimmed_is_the_core(s);
    let once = trimmed(s);
    if once.len() > 0 {
        assert(leading_space(once) == 0 && trailing_space(once) == 0);
        assert(once.subrange(0, once.len() as int) =~= once);
    }
}

/// std's `char::is_whitespace`: whether the character has Unicode's
/// `White_Space` property. The answer depends on the character alone.
#[verifier::external_body]
pub(crate) fn is_whitespace(c: char) -> (answer: bool)
    ensures
        answer == is_white_space(c),
{
    c.is_whitespace()
}

/// The slice of `s` that is left when the white space at its front and at
/// its back is taken off.
pub fn trim(s: &str) -> (rest: &str)
    ensures
        rest@ == trimmed(s@),
{
    let len = s.unicode_len();
    let mut front: usize = 0;
    while front < len && is_whitespace(s.get_char(front))
        invariant
            len == s@.len(),
            front <= len,
            forall|i: int| 0 <= i < front ==> is_white_space(#[trigger] s@[i]),
        decreases len - front,
    {
        front += 1;
    }
    let mut back: usize = len;
    while back > front && is_whitespace(s.get_char(back - 1))
        invariant
            len == s@.len(),
            front <= back <= len,
            forall|i: int| back <= i < len ==> is_white_space(#[trigger] s@[i]),
        decreases back,
    {
        back -= 1;
    }
    proof {
        lemma_leading_space(s@);
        lemma_trailing_space(s@);
    }
    s.substring_char(front, back)
}

/// `head` followed by `tail`.
pub fn join2(head: &str, tail: &str) -> (out: String)
    ensures
        out@ == head@ + tail@,
{
    let mut out = String::from_str(head);
    out.append(tail);
    out
}

/// `head`, `middle` and `tail` in a row.
pub fn join3(head: &str, middle: &str, tail: &str) -> (out: String)
    ensures
        out@ == head@ + middle@ + tail@,
{
    let mut out = String::from_str(head);
    out.append(middle);
    out.append(tail);
    out
}

/// A row of `count` hyphens.
pub open spec fn dashes(count: nat) -> Seq<char> {
    Seq::new(count, |i: int| '-')
}

/// Draws `dashes(count)`.
pub fn rule(count: usize) -> (out: String)
    ensures
        out@ == dashes(count as nat),
{
    proof {
        reveal_strlit("-");
    }
    let mut out = String::new();
    let mut drawn: usize = 0;
    while drawn < count
        invariant
            drawn <= count,
            out@ == dashes(drawn as nat),
            "-"@ == seq!['-'],
        decreases count - drawn,
    {
        out.append("-");
        drawn += 1;
    }
    out
}

/// The character of the decimal digit `d`.
pub open spec fn digit(d: nat) -> char
    recommends
        d < 10,
{
    if d == 0 {
        '0'
    } else if d == 1 {
        '1'
    } else if d == 2 {
        '2'
    } else if d == 3 {
        '3'
    } else if d == 4 {
        '4'
    } else if d == 5 {
        '5'
    } else if d == 6 {
        '6'
    } else if d == 7 {
        '7'
    } else if d == 8 {
        '8'
    } else {
        '9'
    }
}

/// `n` in decimal, most significant digit first, without leading zeros.
pub open spec fn decimal(n: nat) -> Seq<char>
    decreases n,
{
    if n < 10 {
        seq![digit(n)]
    } else {
        decimal(n / 10).push(digit(n % 10))
    }
}

/// `n` in decimal, with a leading minus sign when it is negative.
pub open spec fn signed_decimal(n: int) -> Seq<char> {
    if n < 0 {
        seq!['-'] + decimal((-n) as nat)
    } else {
        decimal(n as nat)
    }
}

fn digit_text(d: u64) -> (text: &'static str)
    requires
        d < 10,
    ensures
        text@ == seq![digit(d as nat)],
{
    proof {
        reveal_strlit("0");
        reveal_strlit("1");
        reveal_strlit("2");
        reveal_strlit("3");
        reveal_strlit("4");
        reveal_strlit("5");
        reveal_strlit("6");
        reveal_strlit("7");
        reveal_strlit("8");
        reveal_strlit("9");
    }
    let text = match d {
        0 => "0",
        1 => "1",
        2 => "2",
        3 => "3",
        4 => "4",
        5 => "5",
        6 => "6",
        7 => "7",
        8 => "8",
        _ => "9",
    };
    text
}

/// Writes `n` in decimal.
pub fn render_unsigned(n: u64) -> (out: String)
    ensures
        out@ == decimal(n as nat),
    decreases n,
{
    if n < 10 {
        String::from_str(digit_text(n))
    } else {
        let mut out = render_unsigned(n / 10);
        out.append(digit_text(n % 10));
        out
    }
}

/// Writes `n` in decimal, with a minus sign in front of a negative number.
pub fn render_signed(n: i64) -> (out: String)
    ensures
        out@ == signed_decimal(n as int),
{
    if n < 0 {
        proof {
            reveal_strlit("-");
        }
        let magnitude: u64 = if n == i64::MIN {
            9_223_372_036_854_775_808u64
        } else {
            (-n) as u64
        };
        let digits = render_unsigned(magnitude);
        let out = join2("-", digits.as_str());
        out
    } else {
        render_unsigned(n as u64)
    }
}

} // verus!
