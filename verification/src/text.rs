//! Small verified text helpers shared by the other modules.

use vstd::prelude::*;

verus! {

/// Compares two strings character by character.
pub fn eq_str(a: &str, b: &str) -> (r: bool)
    ensures
        r == (a@ == b@),
{
    let n = a.unicode_len();
    if n != b.unicode_len() {
        return false;
    }
    let mut i: usize = 0;
    while i < n
        invariant
            n == a@.len(),
            n == b@.len(),
            i <= n,
            forall|j: int| 0 <= j < i ==> a@[j] == b@[j],
        decreases n - i,
    {
        if a.get_char(i) != b.get_char(i) {
            return false;
        }
        i = i + 1;
    }
    assert(a@ =~= b@);
    true
}

/// Joins two pieces of text into a new string.
pub fn join2(a: &str, b: &str) -> (r: String)
    ensures
        r@ == a@ + b@,
{
    let mut s = String::from_str(a);
    s.append(b);
    s
}

/// Joins three pieces of text into a new string.
pub fn join3(a: &str, b: &str, c: &str) -> (r: String)
    ensures
        r@ == a@ + b@ + c@,
{
    let mut s = String::from_str(a);
    s.append(b);
    s.append(c);
    s
}

/// Joins four pieces of text into a new string.
pub fn join4(a: &str, b: &str, c: &str, d: &str) -> (r: String)
    ensures
        r@ == a@ + b@ + c@ + d@,
{
    let mut s = String::from_str(a);
    s.append(b);
    s.append(c);
    s.append(d);
    s
}

/// Copies an optional string.
pub fn copy_opt_string(s: &Option<String>) -> (r: Option<String>)
    ensures
        r == *s,
{
    match s {
        Some(v) => Some(v.clone()),
        None => None,
    }
}

/// The decimal digit character for `d` (`0 <= d < 10`).
pub open spec fn digit_char(d: nat) -> char {
    ((48 + d) as u32) as char
}

/// The decimal text of a natural number, without leading zeros.
pub open spec fn decimal(n: nat) -> Seq<char>
    decreases n,
{
    if n < 10 {
        seq![digit_char(n)]
    } else {
        decimal(n / 10) + seq![digit_char(n % 10)]
    }
}

/// The decimal text of an integer, with a leading `-` when negative.
pub open spec fn signed_decimal(n: int) -> Seq<char> {
    if n < 0 {
        seq!['-'] + decimal((-n) as nat)
    } else {
        decimal(n as nat)
    }
}

/// Whether a character is a decimal digit.
pub open spec fn is_digit(c: char) -> bool {
    48 <= c as int && c as int <= 57
}

proof fn lemma_digit_char(d: nat)
    requires
        d < 10,
    ensures
        digit_char(d) as int == 48 + d,
{
}

/// A decimal text is non-empty and made of digits only.
pub proof fn lemma_decimal_digits(n: nat)
    ensures
        decimal(n).len() >= 1,
        forall|i: int| 0 <= i < decimal(n).len() ==> is_digit(#[trigger] decimal(n)[i]),
    decreases n,
{
    if n < 10 {
        lemma_digit_char(n);
    } else {
        lemma_decimal_digits(n / 10);
        lemma_digit_char(n % 10);
        let d = decimal(n);
        assert forall|i: int| 0 <= i < d.len() implies is_digit(#[trigger] d[i]) by {
            if i < decimal(n / 10).len() {
                assert(d[i] == decimal(n / 10)[i]);
            } else {
                assert(d[i] == digit_char(n % 10));
            }
        }
    }
}

/// Different numbers have different decimal texts.
pub proof fn lemma_decimal_injective(n: nat, m: nat)
    requires
        decimal(n) == decimal(m),
    ensures
        n == m,
    decreases n,
{
    lemma_decimal_digits(n / 10);
    lemma_decimal_digits(m / 10);
    if n < 10 && m < 10 {
        lemma_digit_char(n);
        lemma_digit_char(m);
        assert(decimal(n)[0] == digit_char(n));
        assert(decimal(m)[0] == digit_char(m));
    } else if n < 10 {
        assert(decimal(m).len() >= 2);
    } else if m < 10 {
        assert(decimal(n).len() >= 2);
    } else {
        let dn = decimal(n);
        let dm = decimal(m);
        assert(dn.last() == digit_char(n % 10));
        assert(dm.last() == digit_char(m % 10));
        lemma_digit_char(n % 10);
        lemma_digit_char(m % 10);
        assert(dn.drop_last() =~= decimal(n / 10));
        assert(dm.drop_last() =~= decimal(m / 10));
        lemma_decimal_injective(n / 10, m / 10);
    }
}

/// A signed decimal text is made of digits and at most a leading `-`, and
/// different integers have different texts.
pub proof fn lemma_signed_decimal(n: int, m: int)
    ensures
        forall|i: int| 0 <= i < signed_decimal(n).len() ==>
            (is_digit(#[trigger] signed_decimal(n)[i]) || signed_decimal(n)[i] == '-'),
        signed_decimal(n) == signed_decimal(m) ==> n == m,
{
    let a: nat = if n < 0 { (-n) as nat } else { n as nat };
    let b: nat = if m < 0 { (-m) as nat } else { m as nat };
    lemma_decimal_digits(a);
    lemma_decimal_digits(b);
    let sn = signed_decimal(n);
    assert forall|i: int| 0 <= i < sn.len() implies (is_digit(#[trigger] sn[i]) || sn[i] == '-') by {
        if n < 0 && i > 0 {
            assert(sn[i] == decimal(a)[i - 1]);
        }
    }
    if signed_decimal(n) == signed_decimal(m) {
        if n < 0 && m < 0 {
            assert(signed_decimal(n).drop_first() =~= decimal(a));
            assert(signed_decimal(m).drop_first() =~= decimal(b));
            lemma_decimal_injective(a, b);
        } else if n < 0 {
            assert(signed_decimal(n)[0] == '-');
            assert(is_digit(decimal(b)[0]));
        } else if m < 0 {
            assert(signed_decimal(m)[0] == '-');
            assert(is_digit(decimal(a)[0]));
        } else {
            lemma_decimal_injective(a, b);
        }
    }
}

/// A text split at its last `c` splits one way only: if `a c b` equals
/// `x c y` and neither `b` nor `y` holds `c`, then `a == x` and `b == y`.
pub proof fn lemma_split_at_last(a: Seq<char>, b: Seq<char>, x: Seq<char>, y: Seq<char>, c: char)
    requires
        a + seq![c] + b == x + seq![c] + y,
        forall|i: int| 0 <= i < b.len() ==> #[trigger] b[i] != c,
        forall|i: int| 0 <= i < y.len() ==> #[trigger] y[i] != c,
    ensures
        a == x,
        b == y,
{
    let s = a + seq![c] + b;
    let t = x + seq![c] + y;
    assert(s.len() == t.len());
    if a.len() < x.len() {
        let k = x.len() as int;
        assert(t[k] == (x + seq![c])[k]);
        assert(t[k] == c);
        assert(s[k] == b[k - a.len() - 1]);
        assert(false);
    } else if a.len() > x.len() {
        let k = a.len() as int;
        assert(s[k] == (a + seq![c])[k]);
        assert(s[k] == c);
        assert(t[k] == y[k - x.len() - 1]);
        assert(false);
    }
    assert(a =~= s.subrange(0, a.len() as int));
    assert(x =~= t.subrange(0, x.len() as int));
    assert(b =~= s.subrange(a.len() as int + 1, s.len() as int));
    assert(y =~= t.subrange(x.len() as int + 1, t.len() as int));
}

fn digit_str(d: u128) -> (r: &'static str)
    requires
        d < 10,
    ensures
        r@ == seq![digit_char(d as nat)],
{
    proof {
        reveal_strlit("0");
        reveal_strlit("1");
        reveal_strlit("2");
        reveal_strlit("3");
        reveal_strlit("4");
        reveal_strlit("5");
        reveal_strlit("6");
        reveal_strlit("7");
        reveal_strlit("8");
        reveal_strlit("9");
    }
    let r = if d == 0 {
        "0"
    } else if d == 1 {
        "1"
    } else if d == 2 {
        "2"
    } else if d == 3 {
        "3"
    } else if d == 4 {
        "4"
    } else if d == 5 {
        "5"
    } else if d == 6 {
        "6"
    } else if d == 7 {
        "7"
    } else if d == 8 {
        "8"
    } else {
        "9"
    };
    assert(r@ =~= seq![digit_char(d as nat)]);
    r
}

/// Appends the decimal text of `n` to `out`.
pub fn push_decimal(out: &mut String, n: u128)
    ensures
        final(out)@ == old(out)@ + decimal(n as nat),
    decreases n,
{
    if n < 10 {
        out.append(digit_str(n));
    } else {
        push_decimal(out, n / 10);
        out.append(digit_str(n % 10));
        assert(old(out)@ + decimal((n / 10) as nat) + seq![digit_char((n % 10) as nat)]
            =~= old(out)@ + decimal(n as nat));
    }
}

/// The decimal text of an unsigned number, as `Display` writes it.
pub fn format_unsigned(n: u128) -> (r: String)
    ensures
        r@ == decimal(n as nat),
{
    let mut s = String::new();
    push_decimal(&mut s, n);
    assert(s@ =~= decimal(n as nat));
    s
}

/// The decimal text of a signed number, as `Display` writes it.
pub fn format_signed(n: i128) -> (r: String)
    ensures
        r@ == signed_decimal(n as int),
{
    if n < 0 {
        let magnitude: u128 = if n == i128::MIN {
            (i128::MAX as u128) + 1
        } else {
            (-n) as u128
        };
        let mut s = String::from_str("-");
        proof {
            reveal_strlit("-");
            assert("-"@ =~= seq!['-']);
        }
        push_decimal(&mut s, magnitude);
        s
    } else {
        format_unsigned(n as u128)
    }
}

} // verus!
