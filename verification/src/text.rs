//! Decimal text of integers and the names of the physical relations.

use vstd::prelude::*;

verus! {

/// The one-character text of a decimal digit.
pub open spec fn digit_text(d: int) -> Seq<char> {
    if d == 0 {
        "0"@
    } else if d == 1 {
        "1"@
    } else if d == 2 {
        "2"@
    } else if d == 3 {
        "3"@
    } else if d == 4 {
        "4"@
    } else if d == 5 {
        "5"@
    } else if d == 6 {
        "6"@
    } else if d == 7 {
        "7"@
    } else if d == 8 {
        "8"@
    } else {
        "9"@
    }
}

/// Decimal text of a natural number, most significant digit first, without
/// leading zeros.
pub open spec fn nat_text(n: nat) -> Seq<char>
    decreases n,
{
    if n < 10 {
        digit_text(n as int)
    } else {
        nat_text(n / 10) + digit_text((n % 10) as int)
    }
}

/// Decimal text of an integer: a minus sign before the magnitude of a
/// negative one.
pub open spec fn int_text(n: int) -> Seq<char> {
    if n < 0 {
        "-"@ + nat_text((-n) as nat)
    } else {
        nat_text(n as nat)
    }
}

/// Name of the relation that stores the rows of table or type `oid`.
pub open spec fn table_name_text(oid: int) -> Seq<char> {
    "TABLE"@ + int_text(oid)
}

/// Name of the physical column that stores column `oid`.
pub open spec fn column_name_text(oid: int) -> Seq<char> {
    "COLUMN"@ + int_text(oid)
}

/// Name of the surrogate view of table `oid`.
pub open spec fn surrogate_name_text(oid: int) -> Seq<char> {
    table_name_text(oid) + "_SURROGATE"@
}

fn digit_str(d: u64) -> (r: &'static str)
    requires
        d < 10,
    ensures
        r@ == digit_text(d as int),
{
    if d == 0 {
        "0"
    } else if d == 1 {
        "1"
    } else if d == 2 {
        "2"
    } else if d == 3 {
        "3"
    } else if d == 4 {
        "4"
    } else if d == 5 {
        "5"
    } else if d == 6 {
        "6"
    } else if d == 7 {
        "7"
    } else if d == 8 {
        "8"
    } else {
        "9"
    }
}

fn push_nat(buf: &mut String, n: u64)
    ensures
        final(buf)@ == old(buf)@ + nat_text(n as nat),
    decreases n,
{
    if n >= 10 {
        push_nat(buf, n / 10);
    }
    buf.append(digit_str(n % 10));
    assert(buf@ =~= old(buf)@ + nat_text(n as nat));
}

/// Appends the decimal text of `n`.
pub fn push_int(buf: &mut String, n: i64)
    ensures
        final(buf)@ == old(buf)@ + int_text(n as int),
{
    if n < 0 {
        buf.append("-");
        let magnitude: u64 = if n == i64::MIN {
            9223372036854775808u64
        } else {
            (-n) as u64
        };
        push_nat(buf, magnitude);
        assert(buf@ =~= old(buf)@ + int_text(n as int));
    } else {
        push_nat(buf, n as u64);
    }
}

/// Appends `s`.
pub fn push_text(buf: &mut String, s: &String)
    ensures
        final(buf)@ == old(buf)@ + s@,
{
    buf.append(s.as_str());
}

/// Decimal text of `n`.
pub fn int_string(n: i64) -> (r: String)
    ensures
        r@ == int_text(n as int),
{
    let mut buf: String = String::new();
    push_int(&mut buf, n);
    assert(buf@ =~= int_text(n as int));
    buf
}

/// `TABLE<oid>`.
pub fn table_name(oid: i64) -> (r: String)
    ensures
        r@ == table_name_text(oid as int),
{
    let mut buf: String = String::from_str("TABLE");
    push_int(&mut buf, oid);
    buf
}

/// `COLUMN<oid>`.
pub fn column_name(oid: i64) -> (r: String)
    ensures
        r@ == column_name_text(oid as int),
{
    let mut buf: String = String::from_str("COLUMN");
    push_int(&mut buf, oid);
    buf
}

/// `TABLE<oid>_SURROGATE`.
pub fn surrogate_name(oid: i64) -> (r: String)
    ensures
        r@ == surrogate_name_text(oid as int),
{
    let mut buf: String = table_name(oid);
    buf.append("_SURROGATE");
    buf
}

/// Appends the decimal text of the count `n`.
pub fn push_count(buf: &mut String, n: usize)
    ensures
        final(buf)@ == old(buf)@ + nat_text(n as nat),
{
    push_nat(buf, n as u64);
}

/// `before`, `mid` and `after` in a row.
pub fn wrap(before: &str, mid: &String, after: &str) -> (r: String)
    ensures
        r@ == before@ + mid@ + after@,
{
    let mut buf: String = String::from_str(before);
    push_text(&mut buf, mid);
    buf.append(after);
    buf
}

/// `a`, `x`, `b`, `y` and `c` in a row.
pub fn wrap2(a: &str, x: &String, b: &str, y: &String, c: &str) -> (r: String)
    ensures
        r@ == a@ + x@ + b@ + y@ + c@,
{
    let mut buf: String = wrap(a, x, b);
    push_text(&mut buf, y);
    buf.append(c);
    buf
}

// ---------------------------------------------------------------------------
// Reading an integer.

/// Whether `c` is one of the digits 0 to 9.
pub open spec fn is_digit(c: char) -> bool {
    48 <= c as u32 <= 57
}

/// The number that the digits of `s` spell, the most significant first.
pub open spec fn digits_value(s: Seq<char>) -> int
    decreases s.len(),
{
    if s.len() == 0 {
        0
    } else {
        digits_value(s.drop_last()) * 10 + (s.last() as u32 - 48)
    }
}

/// Whether `s` holds digits only.
pub open spec fn all_digits(s: Seq<char>) -> bool {
    forall|i: int| 0 <= i < s.len() ==> is_digit(#[trigger] s[i])
}

/// How many characters of `s` are its sign.
pub open spec fn sign_len(s: Seq<char>) -> int {
    if s.len() > 0 && (s[0] == '-' || s[0] == '+') {
        1
    } else {
        0
    }
}

/// The integer that `s` spells: an optional sign, then one digit or more,
/// within the range of the type; `None` for any other text.
pub open spec fn int_of_text(s: Seq<char>) -> Option<i64> {
    let body = s.skip(sign_len(s));
    let value = if s.len() > 0 && s[0] == '-' {
        -digits_value(body)
    } else {
        digits_value(body)
    };
    if body.len() == 0 || !all_digits(body) || value < i64::MIN || value > i64::MAX {
        None
    } else {
        Some(value as i64)
    }
}

/// Reads an integer from its decimal text.
pub fn parse_int(text: &str) -> (r: Option<i64>)
    ensures
        r == int_of_text(text@),
{
    let n: usize = text.unicode_len();
    if n == 0 {
        return None;
    }
    let first: char = text.get_char(0);
    let negative: bool = first == '-';
    let start: usize = if first == '-' || first == '+' {
        1
    } else {
        0
    };
    if start == n {
        return None;
    }
    let ghost body = text@.skip(start as int);
    let mut acc: i128 = 0;
    let mut big: bool = false;
    let mut i: usize = start;
    assert(body.take(0) =~= Seq::empty());
    while i < n
        invariant
            start <= i <= n,
            n == text@.len(),
            n > 0,
            start == sign_len(text@),
            negative == (text@[0] == '-'),
            body == text@.skip(start as int),
            all_digits(body.take(i - start)),
            digits_value(body.take(i - start)) >= 0,
            !big ==> acc == digits_value(body.take(i - start)) && acc <= 0x8000_0000_0000_0000,
            big ==> digits_value(body.take(i - start)) > 0x8000_0000_0000_0000,
        decreases n - i,
    {
        let c: char = text.get_char(i);
        let ghost k = i - start;
        assert(body[k] == c);
        assert(body.take(k + 1).drop_last() =~= body.take(k));
        assert(body.take(k + 1).last() == c);
        let code: u32 = c as u32;
        if code < 48 || code > 57 {
            assert(!is_digit(body[k]));
            return None;
        }
        if !big {
            acc = acc * 10 + (code - 48) as i128;
            if acc > 0x8000_0000_0000_0000 {
                big = true;
            }
        }
        i = i + 1;
    }
    assert(body.take(n - start) =~= body);
    if big {
        None
    } else if negative {
        Some((-acc) as i64)
    } else if acc > 0x7fff_ffff_ffff_ffff {
        None
    } else {
        Some(acc as i64)
    }
}

/// A digit is written as one character, which reads as that digit.
proof fn lemma_digit_text(d: int)
    requires
        0 <= d <= 9,
    ensures
        digit_text(d).len() == 1,
        digit_text(d)[0] as u32 == 48 + d,
{
    reveal_strlit("0");
    reveal_strlit("1");
    reveal_strlit("2");
    reveal_strlit("3");
    reveal_strlit("4");
    reveal_strlit("5");
    reveal_strlit("6");
    reveal_strlit("7");
    reveal_strlit("8");
    reveal_strlit("9");
}

/// The text of a natural number holds digits only, one at least, and spells
/// the number.
proof fn lemma_nat_text_reads_back(n: nat)
    ensures
        nat_text(n).len() >= 1,
        all_digits(nat_text(n)),
        digits_value(nat_text(n)) == n,
    decreases n,
{
    lemma_digit_text((n % 10) as int);
    if n < 10 {
        let s = nat_text(n);
        assert(s.drop_last() =~= Seq::<char>::empty());
        assert(digits_value(s.drop_last()) == 0);
    } else {
        lemma_nat_text_reads_back(n / 10);
        let front = nat_text(n / 10);
        let s = nat_text(n);
        assert(s == front + digit_text((n % 10) as int));
        assert(s.drop_last() =~= front);
        assert(s.last() == digit_text((n % 10) as int)[0]);
        assert forall|i: int| 0 <= i < s.len() implies is_digit(#[trigger] s[i]) by {
            if i < front.len() {
                assert(s[i] == front[i]);
            }
        }
    }
}

/// Every integer is read back from its decimal text.
pub proof fn lemma_int_text_reads_back(n: i64)
    ensures
        int_of_text(int_text(n as int)) == Some(n),
{
    reveal_strlit("-");
    let s = int_text(n as int);
    if n < 0 {
        let m = (-(n as int)) as nat;
        lemma_nat_text_reads_back(m);
        assert(s == "-"@ + nat_text(m));
        assert(s[0] == '-');
        assert(s.skip(1) =~= nat_text(m));
    } else {
        lemma_nat_text_reads_back(n as nat);
        assert(is_digit(s[0]));
        assert(s.skip(0) =~= s);
    }
}

} // verus!
