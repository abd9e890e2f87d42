use vstd::prelude::*;

verus! {

/// The character of a decimal digit.
pub open spec fn digit(d: nat) -> char {
    if d == 0 {
        '0'
    } else if d == 1 {
        '1'
    } else if d == 2 {
        '2'
    } else if d == 3 {
        '3'
    } else if d == 4 {
        '4'
    } else if d == 5 {
        '5'
    } else if d == 6 {
        '6'
    } else if d == 7 {
        '7'
    } else if d == 8 {
        '8'
    } else {
        '9'
    }
}

/// A natural number in decimal notation, without leading zeros.
pub open spec fn decimal(n: nat) -> Seq<char>
    decreases n,
{
    if n < 10 {
        seq![digit(n)]
    } else {
        decimal(n / 10).push(digit(n % 10))
    }
}

/// The text of one digit.
fn digit_text(d: u128) -> (text: &'static str)
    requires
        d < 10,
    ensures
        text@ == seq![digit(d as nat)],
{
    proof {
        reveal_strlit("0");
        reveal_strlit("1");
        reveal_strlit("2");
        reveal_strlit("3");
        reveal_strlit("4");
        reveal_strlit("5");
        reveal_strlit("6");
        reveal_strlit("7");
        reveal_strlit("8");
        reveal_strlit("9");
    }
    let text = if d == 0 {
        "0"
    } else if d == 1 {
        "1"
    } else if d == 2 {
        "2"
    } else if d == 3 {
        "3"
    } else if d == 4 {
        "4"
    } else if d == 5 {
        "5"
    } else if d == 6 {
        "6"
    } else if d == 7 {
        "7"
    } else if d == 8 {
        "8"
    } else {
        "9"
    };
    assert(text@ =~= seq![digit(d as nat)]);
    text
}

/// Writes a number in decimal notation.
pub fn decimal_string(n: u128) -> (text: String)
    ensures
        text@ == decimal(n as nat),
    decreases n,
{
    if n < 10 {
        String::from_str(digit_text(n))
    } else {
        let mut text = decimal_string(n / 10);
        text.append(digit_text(n % 10));
        assert(text@ =~= decimal(n as nat));
        text
    }
}

/// The two texts one after the other.
pub fn joined(before: &str, after: &str) -> (text: String)
    ensures
        text@ == before@ + after@,
{
    let mut text = String::from_str(before);
    text.append(after);
    text
}

/// The three texts one after the other.
pub fn framed(before: &str, middle: &str, after: &str) -> (text: String)
    ensures
        text@ == before@ + middle@ + after@,
{
    let mut text = String::from_str(before);
    text.append(middle);
    text.append(after);
    text
}


/// The value of a decimal digit; none for any other character.
pub open spec fn digit_value(c: char) -> Option<nat> {
    if c == '0' {
        Some(0)
    } else if c == '1' {
        Some(1)
    } else if c == '2' {
        Some(2)
    } else if c == '3' {
        Some(3)
    } else if c == '4' {
        Some(4)
    } else if c == '5' {
        Some(5)
    } else if c == '6' {
        Some(6)
    } else if c == '7' {
        Some(7)
    } else if c == '8' {
        Some(8)
    } else if c == '9' {
        Some(9)
    } else {
        None
    }
}

/// Why a text is not the decimal notation of a 64-bit number.
#[derive(Debug, Clone, Copy, PartialEq, Eq, Structural)]
pub enum ParseError {
    /// The text is empty.
    Empty,
    /// A character is no digit, or a sign stands alone.
    InvalidDigit,
    /// The number does not fit in 64 bits.
    PosOverflow,
}

/// The number that the digits from `from` on make of `value`, read from left to right. The
/// first character that is no digit, or with which the number grows beyond 64 bits, ends the
/// reading.
pub open spec fn read_digits(text: Seq<char>, from: int, value: nat) -> Result<u64, ParseError>
    decreases text.len() - from,
{
    if from < 0 || from >= text.len() {
        Ok(value as u64)
    } else {
        match digit_value(text[from]) {
            None => Err(ParseError::InvalidDigit),
            Some(d) => if value * 10 + d > u64::MAX {
                Err(ParseError::PosOverflow)
            } else {
                read_digits(text, from + 1, value * 10 + d)
            },
        }
    }
}

/// The number that a text denotes: digits, with or without a `+` before them.
pub open spec fn parse_decimal(text: Seq<char>) -> Result<u64, ParseError> {
    if text.len() == 0 {
        Err(ParseError::Empty)
    } else {
        let from = if text[0] == '+' {
            1int
        } else {
            0int
        };
        if from >= text.len() {
            Err(ParseError::InvalidDigit)
        } else {
            read_digits(text, from, 0)
        }
    }
}

/// The value of a decimal digit.
fn digit_of(c: char) -> (d: Option<u64>)
    ensures
        match d {
            Some(d) => digit_value(c) == Some(d as nat),
            None => digit_value(c) is None,
        },
{
    if c == '0' {
        Some(0)
    } else if c == '1' {
        Some(1)
    } else if c == '2' {
        Some(2)
    } else if c == '3' {
        Some(3)
    } else if c == '4' {
        Some(4)
    } else if c == '5' {
        Some(5)
    } else if c == '6' {
        Some(6)
    } else if c == '7' {
        Some(7)
    } else if c == '8' {
        Some(8)
    } else if c == '9' {
        Some(9)
    } else {
        None
    }
}

/// Reads a 64-bit number in decimal notation.
pub fn parse_decimal_str(text: &str) -> (parsed: Result<u64, ParseError>)
    ensures
        parsed == parse_decimal(text@),
{
    broadcast use vstd::string::group_string_axioms;

    let mut value: u64 = 0;
    let mut any = false;
    let mut digits = false;
    let chars = text.chars();
    for c in it: chars
        invariant
            it.seq() == text@,
            any == (it.index() > 0),
            !any ==> value == 0 && !digits,
            any ==> {
                let from = if text@[0] == '+' {
                    1int
                } else {
                    0int
                };
                &&& from <= it.index()
                &&& digits == (it.index() > from)
                &&& read_digits(text@, from, 0) == read_digits(text@, it.index(), value as nat)
            },
    {
        if !any && c == '+' {
            any = true;
        } else {
            any = true;
            digits = true;
            let d = match digit_of(c) {
                Some(d) => d,
                None => {
                    return Err(ParseError::InvalidDigit);
                },
            };
            if value > (u64::MAX - d) / 10 {
                return Err(ParseError::PosOverflow);
            }
            value = value * 10 + d;
        }
    }
    if !any {
        Err(ParseError::Empty)
    } else if !digits {
        Err(ParseError::InvalidDigit)
    } else {
        Ok(value)
    }
}


/// Reading a text with one more character at its end: what the reading of the text gave is
/// carried on by that character.
pub proof fn lemma_read_digits_push(text: Seq<char>, c: char, from: int, value: nat)
    requires
        0 <= from <= text.len(),
        value <= u64::MAX,
    ensures
        read_digits(text.push(c), from, value) == match read_digits(text, from, value) {
            Ok(read) => read_digits(seq![c], 0, read as nat),
            Err(error) => Err(error),
        },
    decreases text.len() - from,
{
    if from < text.len() {
        assert(text.push(c)[from] == text[from]);
        match digit_value(text[from]) {
            Some(d) => {
                if value * 10 + d <= u64::MAX {
                    lemma_read_digits_push(text, c, from + 1, value * 10 + d);
                }
            },
            None => {},
        }
    } else {
        assert(text.push(c)[from] == c);
        assert(seq![c][0] == c);
        match digit_value(c) {
            Some(d) => {
                if value * 10 + d <= u64::MAX {
                    assert(read_digits(text.push(c), from + 1, value * 10 + d) == Ok::<
                        u64,
                        ParseError,
                    >((value * 10 + d) as u64));
                    assert(read_digits(seq![c], 1, value * 10 + d) == Ok::<u64, ParseError>(
                        (value * 10 + d) as u64,
                    ));
                }
            },
            None => {},
        }
    }
}

/// The decimal notation of a 64-bit number begins with a digit and reads as that number.
pub proof fn lemma_decimal_reads(n: nat)
    requires
        n <= u64::MAX,
    ensures
        decimal(n).len() > 0,
        digit_value(decimal(n)[0]) is Some,
        read_digits(decimal(n), 0, 0) == Ok::<u64, ParseError>(n as u64),
    decreases n,
{
    if n < 10 {
        assert(decimal(n)[0] == digit(n));
        assert(digit_value(digit(n)) == Some(n));
        assert(read_digits(decimal(n), 1, n) == Ok::<u64, ParseError>(n as u64));
    } else {
        let head = decimal(n / 10);
        let last = digit(n % 10);
        lemma_decimal_reads(n / 10);
        lemma_read_digits_push(head, last, 0, 0);
        assert(head.push(last)[0] == head[0]);
        assert(seq![last][0] == last);
        assert(digit_value(last) == Some(n % 10));
        assert((n / 10) * 10 + n % 10 == n);
        assert(read_digits(seq![last], 1, n) == Ok::<u64, ParseError>(n as u64));
    }
}

/// What `decimal_string` writes, `parse_decimal_str` reads back.
pub proof fn lemma_decimal_round_trip(n: u64)
    ensures
        parse_decimal(decimal(n as nat)) == Ok::<u64, ParseError>(n),
{
    lemma_decimal_reads(n as nat);
}

} // verus!
