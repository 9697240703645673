//! Small operations on text that the rest of the library is built from.

use vstd::prelude::*;
use vstd::string::StringSliceAdditionalSpecFns;
use vstd::utf8::{decode_utf8, encode_utf8_decode_utf8, valid_utf8};

verus! {

/// Whether two string slices hold the same characters.
pub fn str_eq(a: &str, b: &str) -> (same: bool)
    ensures
        same == (a@ == b@),
{
    let x = a.as_bytes();
    let y = b.as_bytes();
    if x.len() != y.len() {
        return false;
    }
    let mut i: usize = 0;
    while i < x.len()
        invariant
            i <= x.len(),
            x.len() == y.len(),
            x@ == a.spec_bytes(),
            y@ == b.spec_bytes(),
            forall|k: int| 0 <= k < i ==> x@[k] == y@[k],
        decreases x.len() - i,
    {
        if x[i] != y[i] {
            return false;
        }
        i = i + 1;
    }
    proof {
        assert(a.spec_bytes() =~= b.spec_bytes());
        encode_utf8_decode_utf8(a@);
        encode_utf8_decode_utf8(b@);
    }
    true
}

/// `std::str::from_utf8`: the text that the bytes spell. There is one exactly
/// where the bytes are valid UTF-8, and it is the text that they decode to.
#[verifier::external_body]
pub(crate) fn utf8_text(bytes: &[u8]) -> (r: Option<&str>)
    ensures
        match r {
            Some(text) => valid_utf8(bytes@) && text@ == decode_utf8(bytes@),
            None => !valid_utf8(bytes@),
        },
{
    std::str::from_utf8(bytes).ok()
}

/// Whether `c` is white space as Unicode defines it: the code points that
/// carry the `White_Space` property.
pub open spec fn is_whitespace(c: char) -> bool {
    let n = c as u32;
    ||| 0x09 <= n <= 0x0D
    ||| n == 0x20
    ||| n == 0x85
    ||| n == 0xA0
    ||| n == 0x1680
    ||| 0x2000 <= n <= 0x200A
    ||| n == 0x2028
    ||| n == 0x2029
    ||| n == 0x202F
    ||| n == 0x205F
    ||| n == 0x3000
}

/// Tells white space from other characters.
pub fn whitespace(c: char) -> (yes: bool)
    ensures
        yes == is_whitespace(c),
{
    let n: u32 = c as u32;
    (0x09 <= n && n <= 0x0D) || n == 0x20 || n == 0x85 || n == 0xA0 || n == 0x1680 || (0x2000 <= n
        && n <= 0x200A) || n == 0x2028 || n == 0x2029 || n == 0x202F || n == 0x205F || n == 0x3000
}

/// `s` without the white space at its two ends.
pub open spec fn trimmed(s: Seq<char>) -> Seq<char>
    decreases s.len(),
{
    if s.len() == 0 {
        s
    } else if is_whitespace(s.first()) {
        trimmed(s.drop_first())
    } else if is_whitespace(s.last()) {
        trimmed(s.drop_last())
    } else {
        s
    }
}

/// A text of white space alone trims to nothing.
pub proof fn lemma_trimmed_blank(s: Seq<char>)
    requires
        forall|j: int| 0 <= j < s.len() ==> is_whitespace(s[j]),
    ensures
        trimmed(s) == Seq::<char>::empty(),
    decreases s.len(),
{
    if s.len() > 0 {
        lemma_trimmed_blank(s.drop_first());
    } else {
        assert(s =~= Seq::<char>::empty());
    }
}

/// A text with one character that is no white space trims to that character.
pub proof fn lemma_trimmed_single(s: Seq<char>, i: int)
    requires
        0 <= i < s.len(),
        !is_whitespace(s[i]),
        forall|j: int| 0 <= j < s.len() && j != i ==> is_whitespace(s[j]),
    ensures
        trimmed(s) == seq![s[i]],
    decreases s.len(),
{
    if is_whitespace(s.first()) {
        lemma_trimmed_single(s.drop_first(), i - 1);
    } else if is_whitespace(s.last()) {
        lemma_trimmed_single(s.drop_last(), i);
    } else {
        assert(i == 0);
        assert(s.len() == 1);
        assert(s =~= seq![s[i]]);
    }
}

/// A text with two characters that are no white space trims to two or more.
pub proof fn lemma_trimmed_long(s: Seq<char>, i: int, k: int)
    requires
        0 <= i < k < s.len(),
        !is_whitespace(s[i]),
        !is_whitespace(s[k]),
    ensures
        trimmed(s).len() >= 2,
    decreases s.len(),
{
    if is_whitespace(s.first()) {
        lemma_trimmed_long(s.drop_first(), i - 1, k - 1);
    } else if is_whitespace(s.last()) {
        lemma_trimmed_long(s.drop_last(), i, k);
    }
}

/// Whether a line of input says yes: trimmed of white space it is the letter
/// `y`, in either case.
pub open spec fn affirmative(line: Seq<char>) -> bool {
    trimmed(line) == seq!['y'] || trimmed(line) == seq!['Y']
}

/// Reads a line of input as a yes or a no.
pub fn is_affirmative(line: &str) -> (yes: bool)
    ensures
        yes == affirmative(line@),
{
    // Characters that are no white space: none yet, one, or more than one.
    let mut seen: u8 = 0;
    let mut letter_y: bool = false;
    let ghost mut first: int = 0;
    let ghost mut second: int = 0;
    for c in it: line.chars()
        invariant
            it.seq() == line@,
            seen <= 2,
            seen == 0 ==> forall|j: int| 0 <= j < it.index() ==> is_whitespace(line@[j]),
            seen >= 1 ==> 0 <= first < it.index() && !is_whitespace(line@[first]) && letter_y == (
            line@[first] == 'y' || line@[first] == 'Y'),
            seen == 1 ==> forall|j: int|
                0 <= j < it.index() && j != first ==> is_whitespace(line@[j]),
            seen == 2 ==> first < second < it.index() && !is_whitespace(line@[second]),
    {
        if !whitespace(c) {
            if seen == 0 {
                seen = 1;
                letter_y = c == 'y' || c == 'Y';
                proof {
                    first = it.index() as int;
                }
            } else if seen == 1 {
                seen = 2;
                proof {
                    second = it.index() as int;
                }
            }
        }
    }
    proof {
        let s = line@;
        if seen == 0 {
            lemma_trimmed_blank(s);
        } else if seen == 1 {
            lemma_trimmed_single(s, first);
            assert(seq![s[first]][0] == s[first]);
            assert(seq!['y'][0] == 'y');
            assert(seq!['Y'][0] == 'Y');
            if letter_y {
                assert(seq![s[first]] =~= seq!['y'] || seq![s[first]] =~= seq!['Y']);
            }
        } else {
            lemma_trimmed_long(s, first, second);
        }
        assert(seq!['y'].len() == 1);
        assert(seq!['Y'].len() == 1);
    }
    seen == 1 && letter_y
}

/// The decimal digit that stands for `d`, for `d` below ten.
pub open spec fn digit(d: int) -> char {
    if d == 0 {
        '0'
    } else if d == 1 {
        '1'
    } else if d == 2 {
        '2'
    } else if d == 3 {
        '3'
    } else if d == 4 {
        '4'
    } else if d == 5 {
        '5'
    } else if d == 6 {
        '6'
    } else if d == 7 {
        '7'
    } else if d == 8 {
        '8'
    } else {
        '9'
    }
}

/// `n` written in decimal, without leading zeros.
pub open spec fn decimal(n: nat) -> Seq<char>
    decreases n,
{
    if n < 10 {
        seq![digit(n as int)]
    } else {
        decimal(n / 10).push(digit((n % 10) as int))
    }
}

fn digit_str(d: u64) -> (s: &'static str)
    requires
        d < 10,
    ensures
        s@ == seq![digit(d as int)],
{
    proof {
        reveal_strlit("0");
        reveal_strlit("1");
        reveal_strlit("2");
        reveal_strlit("3");
        reveal_strlit("4");
        reveal_strlit("5");
        reveal_strlit("6");
        reveal_strlit("7");
        reveal_strlit("8");
        reveal_strlit("9");
    }
    let s = if d == 0 {
        "0"
    } else if d == 1 {
        "1"
    } else if d == 2 {
        "2"
    } else if d == 3 {
        "3"
    } else if d == 4 {
        "4"
    } else if d == 5 {
        "5"
    } else if d == 6 {
        "6"
    } else if d == 7 {
        "7"
    } else if d == 8 {
        "8"
    } else {
        "9"
    };
    assert(s@ =~= seq![digit(d as int)]);
    s
}

/// Writes `n` in decimal.
pub fn decimal_string(n: u64) -> (s: String)
    ensures
        s@ == decimal(n as nat),
    decreases n,
{
    if n < 10 {
        String::from_str(digit_str(n))
    } else {
        let mut s = decimal_string(n / 10);
        s.append(digit_str(n % 10));
        assert(s@ =~= decimal(n as nat));
        s
    }
}

/// Whether `needle` occurs in `haystack` at `at`.
pub open spec fn occurs_at(needle: Seq<char>, haystack: Seq<char>, at: int) -> bool {
    0 <= at && at + needle.len() <= haystack.len() && haystack.subrange(
        at,
        at + needle.len(),
    ) == needle
}

/// Whether `needle` occurs somewhere in `haystack`.
pub open spec fn occurs_in(needle: Seq<char>, haystack: Seq<char>) -> bool {
    exists|at: int| occurs_at(needle, haystack, at)
}

/// The characters of a text.
pub fn characters(text: &str) -> (chars: Vec<char>)
    ensures
        chars@ == text@,
{
    let mut chars: Vec<char> = Vec::new();
    for c in it: text.chars()
        invariant
            it.seq() == text@,
            chars@ == text@.take(it.index() as int),
    {
        chars.push(c);
        assert(chars@ =~= text@.take(it.index() + 1));
    }
    assert(chars@ =~= text@);
    chars
}

fn matches_at(needle: &Vec<char>, haystack: &Vec<char>, at: usize) -> (yes: bool)
    requires
        at + needle.len() <= haystack.len(),
    ensures
        yes == occurs_at(needle@, haystack@, at as int),
{
    let mut k: usize = 0;
    while k < needle.len()
        invariant
            k <= needle.len(),
            at + needle.len() <= haystack.len(),
            forall|j: int| 0 <= j < k ==> haystack@[at + j] == needle@[j],
        decreases needle.len() - k,
    {
        if haystack[at + k] != needle[k] {
            assert(haystack@.subrange(at as int, at + needle.len())[k as int] != needle@[k as int]);
            return false;
        }
        k = k + 1;
    }
    assert(haystack@.subrange(at as int, at + needle.len()) =~= needle@);
    true
}

/// Whether `needle` occurs somewhere in `haystack`.
pub fn contains(haystack: &str, needle: &str) -> (yes: bool)
    ensures
        yes == occurs_in(needle@, haystack@),
{
    let hay = characters(haystack);
    let pin = characters(needle);
    if pin.len() > hay.len() {
        return false;
    }
    let last: usize = hay.len() - pin.len();
    let mut at: usize = 0;
    loop
        invariant
            at <= last,
            last == hay.len() - pin.len(),
            hay@ == haystack@,
            pin@ == needle@,
            forall|j: int| 0 <= j < at ==> !occurs_at(needle@, haystack@, j),
        decreases last - at,
    {
        if matches_at(&pin, &hay, at) {
            return true;
        }
        if at == last {
            return false;
        }
        at = at + 1;
    }
}

/// The text made of `a` followed by `b`.
pub fn joined(a: &str, b: &str) -> (s: String)
    ensures
        s@ == a@ + b@,
{
    let mut s = String::from_str(a);
    s.append(b);
    s
}

} // verus!
