//! Text helpers: comparison, lowercasing, decimal formatting and joining.
use vstd::prelude::*;
use vstd::string::StringExecFns;

verus! {

/// Whether the text `a` equals the text `b`.
pub fn str_equals(a: &str, b: &str) -> (r: bool)
    ensures
        r == (a@ == b@),
{
    String::from_str(a) == String::from_str(b)
}

/// The result of `str::to_lowercase` on a text.
pub uninterp spec fn lowercase(s: Seq<char>) -> Seq<char>;

/// Whether every character of `s` is ASCII.
pub open spec fn all_ascii(s: Seq<char>) -> bool {
    forall|i: int| 0 <= i < s.len() ==> (s[i] as u32) < 128
}

/// The ASCII lowercase form of one character: `A`..=`Z` become `a`..=`z`,
/// every other character is kept.
pub open spec fn ascii_lower_char(c: char) -> char {
    if 'A' <= c <= 'Z' {
        ((c as u32) + 32) as char
    } else {
        c
    }
}

/// The ASCII lowercase form of a text, character by character.
pub open spec fn ascii_lower(s: Seq<char>) -> Seq<char> {
    s.map_values(|c: char| ascii_lower_char(c))
}

/// The lowercase form of `s`.
///
/// Trusted: wraps `str::to_lowercase`.  The result is named `lowercase(s@)`;
/// for a text made only of ASCII characters std documents that each
/// uppercase letter `A`..=`Z` is mapped to its lowercase letter and every
/// other character is kept, which the second clause states.  What it does to
/// other characters (the Unicode case mappings) is left unstated.
#[verifier::external_body]
pub fn to_lowercase(s: &str) -> (r: String)
    ensures
        r@ == lowercase(s@),
        all_ascii(s@) ==> r@ == ascii_lower(s@),
{
    s.to_lowercase()
}

/// The decimal digit character for `d` in `0..10`.
pub open spec fn digit_char(d: int) -> char {
    ((d + 48) as u32) as char
}

/// The decimal digits of a natural number, most significant first, with no
/// leading zero (`0` is written `"0"`).
pub open spec fn digits(n: nat) -> Seq<char>
    decreases n,
{
    if n < 10 {
        seq![digit_char(n as int)]
    } else {
        digits(n / 10).push(digit_char((n % 10) as int))
    }
}

/// The decimal form of an integer, with a leading `-` when it is negative.
pub open spec fn decimal(n: int) -> Seq<char> {
    if n < 0 {
        seq!['-'] + digits((-n) as nat)
    } else {
        digits(n as nat)
    }
}

/// The one-character text of the decimal digit `d`.
fn digit_text(d: u64) -> (t: &'static str)
    requires
        d < 10,
    ensures
        t@ == seq![digit_char(d as int)],
{
    proof {
        reveal_strlit("0");
        reveal_strlit("1");
        reveal_strlit("2");
        reveal_strlit("3");
        reveal_strlit("4");
        reveal_strlit("5");
        reveal_strlit("6");
        reveal_strlit("7");
        reveal_strlit("8");
        reveal_strlit("9");
    }
    let t = match d {
        0 => "0",
        1 => "1",
        2 => "2",
        3 => "3",
        4 => "4",
        5 => "5",
        6 => "6",
        7 => "7",
        8 => "8",
        _ => "9",
    };
    assert(t@ =~= seq![digit_char(d as int)]);
    t
}

/// Appends the decimal digits of `n` to `s`.
fn push_digits(s: &mut String, n: u64)
    ensures
        final(s)@ == old(s)@ + digits(n as nat),
    decreases n,
{
    if n >= 10 {
        push_digits(s, n / 10);
    }
    s.append(digit_text(n % 10));
    proof {
        if n >= 10 {
            assert(digits(n as nat) == digits((n / 10) as nat).push(digit_char((n % 10) as int)));
        } else {
            assert(digits(n as nat) == seq![digit_char(n as int)]);
        }
    }
    assert(s@ =~= old(s)@ + digits(n as nat));
}

/// The decimal form of `n`: base ten, a leading `-` when it is negative,
/// no leading zeros.
pub fn decimal_string(n: i32) -> (r: String)
    ensures
        r@ == decimal(n as int),
{
    let wide: i64 = n as i64;
    if wide < 0 {
        let mut s = String::from_str("-");
        proof {
            reveal_strlit("-");
        }
        push_digits(&mut s, (-wide) as u64);
        assert(s@ =~= decimal(n as int));
        s
    } else {
        let mut s = String::new();
        push_digits(&mut s, wide as u64);
        assert(s@ =~= decimal(n as int));
        s
    }
}

/// The texts of `parts` joined together with `sep` between neighbours.
pub open spec fn joined(parts: Seq<Seq<char>>, sep: Seq<char>) -> Seq<char>
    decreases parts.len(),
{
    if parts.len() == 0 {
        Seq::empty()
    } else if parts.len() == 1 {
        parts[0]
    } else {
        joined(parts.drop_last(), sep) + sep + parts.last()
    }
}

/// The views of a list of strings.
pub open spec fn views(v: Seq<String>) -> Seq<Seq<char>> {
    v.map_values(|s: String| s@)
}

/// Joins `parts` with `sep` between neighbours (as `[String]::join`).
pub fn join(parts: &Vec<String>, sep: &str) -> (r: String)
    ensures
        r@ == joined(views(parts@), sep@),
{
    let mut r = String::new();
    let n = parts.len();
    let ghost all = views(parts@);
    let mut i: usize = 0;
    while i < n
        invariant
            n == parts.len(),
            all == views(parts@),
            0 <= i <= n,
            r@ == joined(all.take(i as int), sep@),
        decreases n - i,
    {
        proof {
            assert(all.take(i + 1).drop_last() =~= all.take(i as int));
        }
        if i > 0 {
            r.append(sep);
        }
        r.append(parts[i].as_str());
        i = i + 1;
    }
    proof {
        assert(all.take(n as int) =~= all);
    }
    r
}

/// Whether a character is a decimal digit `0`..=`9`.
pub open spec fn is_digit(c: char) -> bool {
    48 <= (c as u32) <= 57
}

/// The number that a string of decimal digits stands for, most significant
/// digit first.
pub open spec fn digits_value(s: Seq<char>) -> int
    decreases s.len(),
{
    if s.len() == 0 {
        0
    } else {
        digits_value(s.drop_last()) * 10 + ((s.last() as u32) - 48)
    }
}

/// The digits of a natural number are decimal digits, without a leading
/// zero unless the number is zero, and read back as the number.
proof fn lemma_digits(n: nat)
    ensures
        digits(n).len() >= 1,
        forall|i: int| 0 <= i < digits(n).len() ==> is_digit(#[trigger] digits(n)[i]),
        digits_value(digits(n)) == n,
        digits(n).len() > 1 ==> digits(n)[0] != '0',
        n < 10 <==> digits(n).len() == 1,
    decreases n,
{
    if n < 10 {
        assert(digit_char(n as int) as u32 == n + 48);
        assert(digits(n).drop_last() =~= Seq::<char>::empty());
        assert(digits_value(digits(n)) == digits_value(Seq::<char>::empty()) * 10 + (n as int));
    } else {
        lemma_digits(n / 10);
        let d = digit_char((n % 10) as int);
        assert(d as u32 == (n % 10) + 48);
        let s = digits(n);
        assert(s.drop_last() =~= digits(n / 10));
        assert(s.last() == d);
        assert forall|i: int| 0 <= i < s.len() implies is_digit(#[trigger] s[i]) by {
            if i < s.len() - 1 {
                assert(s[i] == digits(n / 10)[i]);
            }
        }
        if digits(n / 10).len() == 1 {
            assert(digits(n / 10)[0] == digit_char((n / 10) as int));
            assert(digit_char((n / 10) as int) as u32 == (n / 10) + 48);
        }
        assert(s[0] == digits(n / 10)[0]);
        assert((n / 10) * 10 + n % 10 == n);
        assert(digits_value(s) == digits_value(digits(n / 10)) * 10 + ((n % 10) as int));
    }
}

/// Decimal forms read back: the decimal form of a number is its digits
/// (preceded by `-` when it is negative), every one a decimal digit,
/// without a leading zero, and read as a number they give the number's
/// magnitude.
pub proof fn law_decimal(n: int)
    ensures
        ({
            let s = decimal(n);
            let body = if n < 0 {
                s.drop_first()
            } else {
                s
            };
            &&& (n < 0) == (s.len() > 0 && s[0] == '-')
            &&& body.len() >= 1
            &&& forall|i: int| 0 <= i < body.len() ==> is_digit(#[trigger] body[i])
            &&& body.len() > 1 ==> body[0] != '0'
            &&& digits_value(body) == if n < 0 {
                -n
            } else {
                n
            }
        }),
{
    if n < 0 {
        lemma_digits((-n) as nat);
        let s = decimal(n);
        assert(s.drop_first() =~= digits((-n) as nat));
    } else {
        lemma_digits(n as nat);
        let s = decimal(n);
        if s.len() > 0 && s[0] == '-' {
            assert(is_digit(s[0]));
        }
    }
}

/// Joining puts the separator between neighbours and nowhere else: no
/// parts give the empty text, one part gives itself, and each further part
/// adds the separator and then the part.
pub proof fn law_joined(a: Seq<char>, b: Seq<char>, c: Seq<char>, sep: Seq<char>)
    ensures
        joined(Seq::<Seq<char>>::empty(), sep) == Seq::<char>::empty(),
        joined(seq![a], sep) == a,
        joined(seq![a, b], sep) == a + sep + b,
        joined(seq![a, b, c], sep) == a + sep + b + sep + c,
{
    assert(seq![a, b].drop_last() =~= seq![a]);
    assert(seq![a, b, c].drop_last() =~= seq![a, b]);
    assert(joined(seq![a], sep) == a);
    assert(joined(seq![a, b], sep) == joined(seq![a], sep) + sep + b);
    assert(joined(seq![a, b, c], sep) == joined(seq![a, b], sep) + sep + c);
}

} // verus!
