//! Decimal text for unsigned integers: writing them out, and reading them back
//! with the rules (and the error messages) of the standard library's `usize`
//! parser.
use vstd::prelude::*;

verus! {

/// The character that stands for the decimal digit `d` (`0 <= d < 10`).
pub open spec fn digit_char(d: int) -> char {
    (d + 48) as char
}

/// Whether `c` is one of `'0'` to `'9'`.
pub open spec fn is_digit(c: char) -> bool {
    48 <= (c as int) <= 57
}

/// The value of the decimal digit `c`.
pub open spec fn digit_value(c: char) -> int {
    (c as int) - 48
}

/// The shortest decimal text of `n`, most significant digit first.
pub open spec fn decimal(n: nat) -> Seq<char>
    decreases n,
{
    if n < 10 {
        seq![digit_char(n as int)]
    } else {
        decimal(n / 10).push(digit_char((n % 10) as int))
    }
}

/// Why a text is not the decimal text of a `usize`.
#[derive(Clone, Copy, PartialEq, Eq, Structural, Debug)]
pub enum IntError {
    /// The text is empty.
    Empty,
    /// A character is not a digit (or the text is a lone sign).
    InvalidDigit,
    /// The number does not fit in a `usize`.
    PosOverflow,
}

/// Reads the digits `d` from left to right into `acc`: the first character that
/// is not a digit, or the first digit that takes the value past `usize::MAX`,
/// decides the error.
pub open spec fn scan_digits(d: Seq<char>, acc: usize) -> Result<usize, IntError>
    decreases d.len(),
{
    if d.len() == 0 {
        Ok(acc)
    } else if !is_digit(d[0]) {
        Err(IntError::InvalidDigit)
    } else {
        let next = acc * 10 + digit_value(d[0]);
        if next > usize::MAX {
            Err(IntError::PosOverflow)
        } else {
            scan_digits(d.drop_first(), next as usize)
        }
    }
}

/// What reading `s` as a `usize` gives: an empty text is `Empty`, a lone sign
/// is `InvalidDigit`, one leading `+` is skipped, and the rest is read as
/// digits.
pub open spec fn parse_usize_spec(s: Seq<char>) -> Result<usize, IntError> {
    if s.len() == 0 {
        Err(IntError::Empty)
    } else if s.len() == 1 && (s[0] == '+' || s[0] == '-') {
        Err(IntError::InvalidDigit)
    } else if s[0] == '+' {
        scan_digits(s.drop_first(), 0)
    } else {
        scan_digits(s, 0)
    }
}

/// The message that describes each parse error.
pub open spec fn int_error_message(e: IntError) -> Seq<char> {
    match e {
        IntError::Empty => "cannot parse integer from empty string"@,
        IntError::InvalidDigit => "invalid digit found in string"@,
        IntError::PosOverflow => "number too large to fit in target type"@,
    }
}

impl IntError {
    /// The message that describes this error.
    pub fn message(&self) -> (r: &'static str)
        ensures
            r@ == int_error_message(*self),
    {
        match self {
            IntError::Empty => "cannot parse integer from empty string",
            IntError::InvalidDigit => "invalid digit found in string",
            IntError::PosOverflow => "number too large to fit in target type",
        }
    }
}

/// The text of one decimal digit.
fn digit_str(d: u8) -> (r: &'static str)
    requires
        d < 10,
    ensures
        r@ == seq![digit_char(d as int)],
{
    proof {
        reveal_strlit("0");
        reveal_strlit("1");
        reveal_strlit("2");
        reveal_strlit("3");
        reveal_strlit("4");
        reveal_strlit("5");
        reveal_strlit("6");
        reveal_strlit("7");
        reveal_strlit("8");
        reveal_strlit("9");
    }
    let r = match d {
        0 => "0",
        1 => "1",
        2 => "2",
        3 => "3",
        4 => "4",
        5 => "5",
        6 => "6",
        7 => "7",
        8 => "8",
        _ => "9",
    };
    assert(r@ =~= seq![digit_char(d as int)]);
    r
}

/// Writes `n` in decimal.
pub fn format_decimal(n: u128) -> (s: String)
    ensures
        s@ == decimal(n as nat),
    decreases n,
{
    if n < 10 {
        String::from_str(digit_str(n as u8))
    } else {
        let mut s = format_decimal(n / 10);
        s.append(digit_str((n % 10) as u8));
        s
    }
}

/// Reads `s` as a `usize` with the rules of `parse_usize_spec`.
pub fn parse_usize(s: &str) -> (r: Result<usize, IntError>)
    ensures
        r == parse_usize_spec(s@),
{
    let len = s.unicode_len();
    if len == 0 {
        return Err(IntError::Empty);
    }
    let first = s.get_char(0);
    if len == 1 && (first == '+' || first == '-') {
        return Err(IntError::InvalidDigit);
    }
    let start: usize = if first == '+' {
        1
    } else {
        0
    };
    let ghost digits = s@.skip(start as int);
    let mut acc: usize = 0;
    let mut i: usize = start;
    assert(s@.skip(start as int) =~= (if start == 1 {
        s@.drop_first()
    } else {
        s@
    }));
    assert(parse_usize_spec(s@) == scan_digits(digits, 0));
    while i < len
        invariant
            start <= i <= len,
            len == s@.len(),
            digits == s@.skip(start as int),
            parse_usize_spec(s@) == scan_digits(digits, 0),
            scan_digits(digits, 0) == scan_digits(s@.skip(i as int), acc),
        decreases len - i,
    {
        let c = s.get_char(i);
        assert(s@.skip(i as int)[0] == c);
        assert(s@.skip(i as int).drop_first() =~= s@.skip(i + 1));
        if !('0' <= c && c <= '9') {
            return Err(IntError::InvalidDigit);
        }
        let d: usize = (c as u32 - 48) as usize;
        if acc > (usize::MAX - d) / 10 {
            assert(acc * 10 + d > usize::MAX) by (nonlinear_arith)
                requires
                    acc > (usize::MAX - d) / 10,
                    d <= 9,
            ;
            return Err(IntError::PosOverflow);
        }
        assert(acc * 10 + d <= usize::MAX) by (nonlinear_arith)
            requires
                acc <= (usize::MAX - d) / 10,
                d <= 9,
        ;
        acc = acc * 10 + d;
        i = i + 1;
    }
    assert(s@.skip(len as int) =~= Seq::<char>::empty());
    Ok(acc)
}

/// Every character of a decimal text is a digit.
pub proof fn lemma_decimal_digits(n: nat)
    ensures
        decimal(n).len() >= 1,
        forall|i: int| 0 <= i < decimal(n).len() ==> #[trigger] is_digit(decimal(n)[i]),
    decreases n,
{
    if n >= 10 {
        lemma_decimal_digits(n / 10);
    }
}

/// Reading a concatenation goes through its first part, then its second.
pub proof fn lemma_scan_append(a: Seq<char>, b: Seq<char>, acc: usize)
    ensures
        scan_digits(a + b, acc) == (match scan_digits(a, acc) {
            Ok(v) => scan_digits(b, v),
            Err(e) => Err(e),
        }),
    decreases a.len(),
{
    if a.len() > 0 {
        assert((a + b)[0] == a[0]);
        assert((a + b).drop_first() =~= a.drop_first() + b);
        if is_digit(a[0]) {
            let next = acc * 10 + digit_value(a[0]);
            if next <= usize::MAX {
                lemma_scan_append(a.drop_first(), b, next as usize);
            }
        }
    } else {
        assert(a + b =~= b);
    }
}

/// The digits of `n`, read from zero, give `n` back.
pub proof fn lemma_scan_decimal(n: nat)
    requires
        n <= usize::MAX,
    ensures
        scan_digits(decimal(n), 0) == Ok::<usize, IntError>(n as usize),
    decreases n,
{
    let c = digit_char((n % 10) as int);
    assert(digit_value(c) == n % 10);
    assert(is_digit(c));
    assert(seq![c].drop_first() =~= Seq::<char>::empty());
    assert(scan_digits(Seq::<char>::empty(), (n % 10) as usize) == Ok::<usize, IntError>((n % 10) as usize));
    assert(scan_digits(seq![c], 0) == Ok::<usize, IntError>((n % 10) as usize));
    if n < 10 {
        assert(decimal(n) == seq![c]);
    } else {
        lemma_scan_decimal(n / 10);
        lemma_scan_append(decimal(n / 10), seq![c], 0);
        assert(decimal(n) == decimal(n / 10) + seq![c]);
        assert((n / 10) * 10 + n % 10 == n) by (nonlinear_arith);
        let hi = (n / 10) as usize;
        assert(hi * 10 + digit_value(c) == n);
        assert(scan_digits(Seq::<char>::empty(), n as usize) == Ok::<usize, IntError>(n as usize));
        assert(scan_digits(seq![c], hi) == Ok::<usize, IntError>(n as usize));
    }
}

/// Law: reading back the decimal text of a `usize` gives the same number.
pub proof fn lemma_parse_format_roundtrip(n: usize)
    ensures
        parse_usize_spec(decimal(n as nat)) == Ok::<usize, IntError>(n),
{
    lemma_decimal_digits(n as nat);
    lemma_scan_decimal(n as nat);
    let d = decimal(n as nat);
    assert(is_digit(d[0]));
}

} // verus!
