//! Text helpers: comparing, searching and building strings whose contents
//! are stated as sequences of characters.

use vstd::prelude::*;
use vstd::string::StringExecFns;

verus! {

/// Whether two string slices hold the same characters.
pub fn str_eq(a: &str, b: &str) -> (r: bool)
    ensures
        r == (a@ == b@),
{
    let x = a.as_bytes();
    let y = b.as_bytes();
    proof {
        vstd::utf8::encode_utf8_decode_utf8(a@);
        vstd::utf8::encode_utf8_decode_utf8(b@);
    }
    if x.len() != y.len() {
        return false;
    }
    let mut i: usize = 0;
    while i < x.len()
        invariant
            i <= x.len(),
            x.len() == y.len(),
            forall|j: int| 0 <= j < i ==> x@[j] == y@[j],
            x@ != y@ ==> a@ != b@,
        decreases x.len() - i,
    {
        if x[i] != y[i] {
            return false;
        }
        i += 1;
    }
    assert(x@ =~= y@);
    true
}

/// The characters of a string slice, in order.
pub fn chars_of(s: &str) -> (v: Vec<char>)
    ensures
        v@ == s@,
{
    let mut v: Vec<char> = Vec::new();
    for c in it: s.chars()
        invariant
            v@ == s@.take(it.index() as int),
            it.seq() == s@,
    {
        v.push(c);
    }
    v
}

/// The characters with the Unicode property `White_Space`.
pub open spec fn is_whitespace(c: char) -> bool {
    let u = c as u32;
    ||| 0x09 <= u <= 0x0D
    ||| u == 0x20
    ||| u == 0x85
    ||| u == 0xA0
    ||| u == 0x1680
    ||| 0x2000 <= u <= 0x200A
    ||| u == 0x2028
    ||| u == 0x2029
    ||| u == 0x202F
    ||| u == 0x205F
    ||| u == 0x3000
}

/// A text is blank when it holds nothing but whitespace; the empty text is blank.
pub open spec fn is_blank(s: Seq<char>) -> bool {
    forall|i: int| 0 <= i < s.len() ==> is_whitespace(#[trigger] s[i])
}

/// Whether `c` is a whitespace character.
pub fn char_is_whitespace(c: char) -> (r: bool)
    ensures
        r == is_whitespace(c),
{
    let u: u32 = c as u32;
    (0x09 <= u && u <= 0x0D) || u == 0x20 || u == 0x85 || u == 0xA0 || u == 0x1680 || (0x2000 <= u
        && u <= 0x200A) || u == 0x2028 || u == 0x2029 || u == 0x202F || u == 0x205F || u == 0x3000
}

/// Whether nothing is left of `s` once leading and trailing whitespace is removed.
pub fn str_is_blank(s: &str) -> (r: bool)
    ensures
        r == is_blank(s@),
{
    for c in it: s.chars()
        invariant
            it.seq() == s@,
            is_blank(s@.take(it.index() as int)),
    {
        if !char_is_whitespace(c) {
            assert(s@[it.index() as int] == c);
            return false;
        }
        assert forall|i: int| 0 <= i < it.index() + 1 implies is_whitespace(
            #[trigger] s@.take(it.index() + 1)[i],
        ) by {
            if i < it.index() {
                assert(s@.take(it.index() as int)[i] == s@[i]);
            }
        }
    }
    assert(s@.take(s@.len() as int) =~= s@);
    true
}

/// `needle` occurs in `hay` as a run of consecutive characters.
pub open spec fn occurs_at(hay: Seq<char>, needle: Seq<char>, at: int) -> bool {
    0 <= at && at + needle.len() <= hay.len() && hay.subrange(at, at + needle.len()) == needle
}

/// `needle` occurs somewhere in `hay`.
pub open spec fn contains_text(hay: Seq<char>, needle: Seq<char>) -> bool {
    exists|at: int| occurs_at(hay, needle, at)
}

fn matches_at(hay: &Vec<char>, needle: &Vec<char>, at: usize) -> (r: bool)
    requires
        at + needle.len() <= hay.len(),
    ensures
        r == occurs_at(hay@, needle@, at as int),
{
    let mut j: usize = 0;
    while j < needle.len()
        invariant
            j <= needle.len(),
            at + needle.len() <= hay.len(),
            forall|k: int| 0 <= k < j ==> hay@[at + k] == needle@[k],
        decreases needle.len() - j,
    {
        if hay[at + j] != needle[j] {
            assert(hay@.subrange(at as int, at + needle.len())[j as int] == hay@[at + j]);
            return false;
        }
        j += 1;
    }
    assert(hay@.subrange(at as int, at + needle.len()) =~= needle@);
    true
}

/// Whether `needle` occurs in `hay`.
pub fn str_contains(hay: &str, needle: &str) -> (r: bool)
    ensures
        r == contains_text(hay@, needle@),
{
    let h = chars_of(hay);
    let n = chars_of(needle);
    if n.len() > h.len() {
        return false;
    }
    let last: usize = h.len() - n.len();
    let mut at: usize = 0;
    loop
        invariant
            at <= last,
            last == h.len() - n.len(),
            n.len() <= h.len(),
            h@ == hay@,
            n@ == needle@,
            forall|k: int| 0 <= k < at ==> !occurs_at(hay@, needle@, k),
        decreases last - at,
    {
        if matches_at(&h, &n, at) {
            return true;
        }
        if at == last {
            return false;
        }
        at += 1;
    }
}

/// The character that writes the digit `d`.
pub open spec fn digit_char(d: int) -> char {
    seq!['0', '1', '2', '3', '4', '5', '6', '7', '8', '9'][d]
}

/// A natural number in decimal, without leading zeros.
pub open spec fn natural_text(n: nat) -> Seq<char>
    decreases n,
{
    if n < 10 {
        seq![digit_char(n as int)]
    } else {
        natural_text(n / 10).push(digit_char((n % 10) as int))
    }
}

/// An integer in decimal, with a minus sign in front of a negative one.
pub open spec fn decimal_text(n: int) -> Seq<char> {
    if n < 0 {
        seq!['-'] + natural_text((-n) as nat)
    } else {
        natural_text(n as nat)
    }
}

/// A natural number in decimal, with a leading zero below ten.
pub open spec fn two_digit_text(n: nat) -> Seq<char> {
    if n < 10 {
        seq!['0', digit_char(n as int)]
    } else {
        natural_text(n)
    }
}

/// The ten characters that write a digit.
pub open spec fn is_digit(c: char) -> bool {
    exists|d: int| 0 <= d < 10 && c == #[trigger] digit_char(d)
}

/// Different digits are written differently, and none as a minus sign.
pub proof fn lemma_digit_char(a: int, b: int)
    requires
        0 <= a < 10,
        0 <= b < 10,
    ensures
        digit_char(a) == digit_char(b) ==> a == b,
        digit_char(a) != '-',
        is_digit(digit_char(a)),
{
}

/// A natural number is written in digits only, and in at least one.
pub proof fn lemma_natural_text_digits(n: nat)
    ensures
        natural_text(n).len() >= 1,
        n >= 10 ==> natural_text(n).len() >= 2,
        forall|i: int| 0 <= i < natural_text(n).len() ==> is_digit(#[trigger] natural_text(n)[i]),
    decreases n,
{
    if n >= 10 {
        lemma_natural_text_digits(n / 10);
        lemma_digit_char((n % 10) as int, 0);
    } else {
        lemma_digit_char(n as int, 0);
    }
}

/// Different natural numbers are written differently.
pub proof fn lemma_natural_text_injective(a: nat, b: nat)
    requires
        natural_text(a) == natural_text(b),
    ensures
        a == b,
    decreases a,
{
    lemma_natural_text_digits(a);
    lemma_natural_text_digits(b);
    if a < 10 && b < 10 {
        assert(natural_text(a)[0] == digit_char(a as int));
        assert(natural_text(b)[0] == digit_char(b as int));
        lemma_digit_char(a as int, b as int);
    } else if a >= 10 && b >= 10 {
        let x = natural_text(a / 10);
        let y = natural_text(b / 10);
        let s = natural_text(a);
        assert(s == x.push(digit_char((a % 10) as int)));
        assert(s == y.push(digit_char((b % 10) as int)));
        assert(s.drop_last() =~= x);
        assert(s.drop_last() =~= y);
        assert(s.last() == digit_char((a % 10) as int));
        assert(s.last() == digit_char((b % 10) as int));
        lemma_digit_char((a % 10) as int, (b % 10) as int);
        lemma_natural_text_injective(a / 10, b / 10);
    } else if a < 10 {
        assert(natural_text(a).len() == 1);
    } else {
        assert(natural_text(b).len() == 1);
    }
}

/// Different integers are written differently.
pub proof fn lemma_decimal_text_injective(a: int, b: int)
    requires
        decimal_text(a) == decimal_text(b),
    ensures
        a == b,
{
    lemma_natural_text_digits(if a < 0 { (-a) as nat } else { a as nat });
    lemma_natural_text_digits(if b < 0 { (-b) as nat } else { b as nat });
    if a < 0 && b < 0 {
        let x = natural_text((-a) as nat);
        let y = natural_text((-b) as nat);
        let s = decimal_text(a);
        assert(s.subrange(1, s.len() as int) =~= x);
        assert(s.subrange(1, s.len() as int) =~= y);
        lemma_natural_text_injective((-a) as nat, (-b) as nat);
    } else if a >= 0 && b >= 0 {
        lemma_natural_text_injective(a as nat, b as nat);
    } else if a < 0 {
        assert(decimal_text(a)[0] == '-');
        let d = choose|d: int| 0 <= d < 10 && natural_text(b as nat)[0] == #[trigger] digit_char(d);
        lemma_digit_char(d, 0);
    } else {
        assert(decimal_text(b)[0] == '-');
        let d = choose|d: int| 0 <= d < 10 && natural_text(a as nat)[0] == #[trigger] digit_char(d);
        lemma_digit_char(d, 0);
    }
}

/// Below a hundred, the two-digit form has two digits and tells the numbers apart.
pub proof fn lemma_two_digit_text(a: nat, b: nat)
    requires
        a < 100,
        b < 100,
    ensures
        two_digit_text(a).len() == 2,
        is_digit(two_digit_text(a)[0]),
        is_digit(two_digit_text(a)[1]),
        two_digit_text(a) == two_digit_text(b) ==> a == b,
{
    reveal_with_fuel(natural_text, 2);
    lemma_digit_char((a / 10) as int, (b / 10) as int);
    lemma_digit_char((a % 10) as int, (b % 10) as int);
    lemma_digit_char(0, 0);
    let x = two_digit_text(a);
    let y = two_digit_text(b);
    assert(x[0] == digit_char((a / 10) as int) && x[1] == digit_char((a % 10) as int));
    assert(y[0] == digit_char((b / 10) as int) && y[1] == digit_char((b % 10) as int));
}

fn digit_str(d: u64) -> (s: &'static str)
    requires
        d < 10,
    ensures
        s@ == seq![digit_char(d as int)],
{
    proof {
        reveal_strlit("0");
        reveal_strlit("1");
        reveal_strlit("2");
        reveal_strlit("3");
        reveal_strlit("4");
        reveal_strlit("5");
        reveal_strlit("6");
        reveal_strlit("7");
        reveal_strlit("8");
        reveal_strlit("9");
    }
    let s = if d == 0 {
        "0"
    } else if d == 1 {
        "1"
    } else if d == 2 {
        "2"
    } else if d == 3 {
        "3"
    } else if d == 4 {
        "4"
    } else if d == 5 {
        "5"
    } else if d == 6 {
        "6"
    } else if d == 7 {
        "7"
    } else if d == 8 {
        "8"
    } else {
        "9"
    };
    assert(s@ =~= seq![digit_char(d as int)]);
    s
}

/// Appends `n` in decimal to `out`.
pub fn push_natural(out: &mut String, n: u64)
    ensures
        final(out)@ == old(out)@ + natural_text(n as nat),
    decreases n,
{
    if n >= 10 {
        push_natural(out, n / 10);
    }
    out.append(digit_str(n % 10));
    assert(final(out)@ =~= old(out)@ + natural_text(n as nat));
}

/// Appends `n` in decimal to `out`.
pub fn push_decimal(out: &mut String, n: i64)
    ensures
        final(out)@ == old(out)@ + decimal_text(n as int),
{
    if n < 0 {
        proof {
            reveal_strlit("-");
        }
        out.append("-");
        let m: u64 = if n == i64::MIN {
            9223372036854775808u64
        } else {
            (-n) as u64
        };
        push_natural(out, m);
        assert(final(out)@ =~= old(out)@ + decimal_text(n as int));
    } else {
        push_natural(out, n as u64);
    }
}

/// Appends `n` in decimal to `out`, in two digits where one would do.
pub fn push_two_digits(out: &mut String, n: u32)
    ensures
        final(out)@ == old(out)@ + two_digit_text(n as nat),
{
    if n < 10 {
        proof {
            reveal_strlit("0");
        }
        out.append("0");
        out.append(digit_str(n as u64));
        assert(final(out)@ =~= old(out)@ + two_digit_text(n as nat));
    } else {
        push_natural(out, n as u64);
    }
}

/// `n` in decimal.
pub fn decimal_string(n: i64) -> (s: String)
    ensures
        s@ == decimal_text(n as int),
{
    let mut s = String::new();
    push_decimal(&mut s, n);
    assert(s@ =~= decimal_text(n as int));
    s
}

} // verus!
