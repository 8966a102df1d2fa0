//! Deciding what to do with one line typed at an interactive prompt that
//! asks for a positive integer: accept its value, or reject it with a
//! reason and ask again, or give up once the input has ended.

use vstd::prelude::*;
use vstd::string::group_string_axioms;

verus! {

broadcast use group_string_axioms;

/// Characters with the Unicode White_Space property.
pub open spec fn is_space(c: char) -> bool {
    ||| '\u{9}' <= c <= '\u{d}'
    ||| c == ' '
    ||| c == '\u{85}'
    ||| c == '\u{a0}'
    ||| c == '\u{1680}'
    ||| '\u{2000}' <= c <= '\u{200a}'
    ||| c == '\u{2028}'
    ||| c == '\u{2029}'
    ||| c == '\u{202f}'
    ||| c == '\u{205f}'
    ||| c == '\u{3000}'
}

/// `s` without its leading white space.
pub open spec fn trim_start(s: Seq<char>) -> Seq<char>
    decreases s.len(),
{
    if s.len() > 0 && is_space(s[0]) {
        trim_start(s.drop_first())
    } else {
        s
    }
}

/// `s` without its trailing white space.
pub open spec fn trim_end(s: Seq<char>) -> Seq<char>
    decreases s.len(),
{
    if s.len() > 0 && is_space(s.last()) {
        trim_end(s.drop_last())
    } else {
        s
    }
}

/// `s` without leading or trailing white space.
pub open spec fn trimmed(s: Seq<char>) -> Seq<char> {
    trim_end(trim_start(s))
}

/// Relies on `str::trim`: it removes leading and trailing characters with
/// the Unicode White_Space property, and nothing else.
#[verifier::external_body]
fn trim_line(s: &str) -> (r: &str)
    ensures
        r@ == trimmed(s@),
{
    s.trim()
}

fn chars_of(s: &str) -> (r: Vec<char>)
    ensures
        r@ == s@,
{
    let mut v: Vec<char> = Vec::new();
    for c in it: s.chars()
        invariant
            v@ == it.seq().take(it.index() as int),
    {
        v.push(c);
        assert(v@ =~= it.seq().take(it.index() as int + 1));
    }
    v
}

/// Why a line is not an integer of the type asked for.
#[derive(Clone, Copy, Debug, PartialEq, Eq, Structural)]
pub enum ParseFailure {
    /// Nothing but white space.
    Empty,
    /// A character other than a leading sign or a decimal digit, or a sign
    /// with no digits after it.
    InvalidDigit,
    /// Above the largest value of the type.
    TooLarge,
    /// Below the smallest value of the type.
    TooSmall,
}

pub open spec fn is_digit(c: char) -> bool {
    '0' <= c <= '9'
}

pub open spec fn digit_of(c: char) -> nat {
    (c as int - '0' as int) as nat
}

/// Reads the digits of `s` from the left onto `acc`, and stops at the first
/// problem: a character that is no digit, or a value past `limit` (which is
/// reported as `over`).
pub open spec fn scan_digits(s: Seq<char>, acc: nat, limit: nat, over: ParseFailure) -> Result<
    nat,
    ParseFailure,
>
    decreases s.len(),
{
    if s.len() == 0 {
        Ok(acc)
    } else if !is_digit(s[0]) {
        Err(ParseFailure::InvalidDigit)
    } else if acc * 10 + digit_of(s[0]) > limit {
        Err(over)
    } else {
        scan_digits(s.drop_first(), acc * 10 + digit_of(s[0]), limit, over)
    }
}

/// Whether `s` opens with a minus sign.
pub open spec fn is_negative(s: Seq<char>) -> bool {
    s.len() > 0 && s[0] == '-'
}

/// `s` without the sign it may open with.
pub open spec fn unsigned_part(s: Seq<char>) -> Seq<char> {
    if s.len() > 0 && (s[0] == '+' || s[0] == '-') {
        s.drop_first()
    } else {
        s
    }
}

/// `s` read as an `i32`: an optional `+` or `-`, then one or more decimal
/// digits, read from the left until the first problem.
pub open spec fn parse_outcome(s: Seq<char>) -> Result<i32, ParseFailure> {
    let digits = unsigned_part(s);
    if s.len() == 0 {
        Err(ParseFailure::Empty)
    } else if digits.len() == 0 {
        Err(ParseFailure::InvalidDigit)
    } else if is_negative(s) {
        match scan_digits(digits, 0, 2147483648, ParseFailure::TooSmall) {
            Ok(m) => Ok((-m) as i32),
            Err(e) => Err(e),
        }
    } else {
        match scan_digits(digits, 0, 2147483647, ParseFailure::TooLarge) {
            Ok(m) => Ok(m as i32),
            Err(e) => Err(e),
        }
    }
}

/// `s` without the plus sign it may open with.
pub open spec fn unsigned_digits(s: Seq<char>) -> Seq<char> {
    if s.len() > 0 && s[0] == '+' {
        s.drop_first()
    } else {
        s
    }
}

/// `s` read as a `usize`: an optional `+`, then one or more decimal digits,
/// read from the left until the first problem.
pub open spec fn size_outcome(s: Seq<char>) -> Result<usize, ParseFailure> {
    if s.len() == 0 {
        Err(ParseFailure::Empty)
    } else if unsigned_digits(s).len() == 0 {
        Err(ParseFailure::InvalidDigit)
    } else {
        match scan_digits(unsigned_digits(s), 0, usize::MAX as nat, ParseFailure::TooLarge) {
            Ok(m) => Ok(m as usize),
            Err(e) => Err(e),
        }
    }
}

/// Reads the digits of `chars` from `start` on, as `scan_digits` says.
fn scan_from(chars: &Vec<char>, start: usize, limit: u64, over: ParseFailure) -> (r: Result<
    u64,
    ParseFailure,
>)
    requires
        start <= chars.len(),
    ensures
        match r {
            Ok(v) => scan_digits(chars@.subrange(start as int, chars.len() as int), 0, limit as nat, over)
                == Ok::<nat, ParseFailure>(v as nat),
            Err(e) => scan_digits(chars@.subrange(start as int, chars.len() as int), 0, limit as nat, over)
                == Err::<nat, ParseFailure>(e),
        },
        r is Ok ==> r->Ok_0 <= limit,
{
    let n = chars.len();
    let ghost whole = scan_digits(chars@.subrange(start as int, n as int), 0, limit as nat, over);
    let mut acc: u64 = 0;
    let mut i: usize = start;
    while i < n
        invariant
            n == chars.len(),
            start <= i <= n,
            acc <= limit,
            whole == scan_digits(chars@.subrange(start as int, n as int), 0, limit as nat, over),
            scan_digits(chars@.subrange(i as int, n as int), acc as nat, limit as nat, over) == whole,
        decreases n - i,
    {
        let c = chars[i];
        let ghost rest = chars@.subrange(i as int, n as int);
        assert(rest[0] == c);
        assert(rest.drop_first() =~= chars@.subrange(i + 1, n as int));
        if !('0' <= c && c <= '9') {
            assert(scan_digits(rest, acc as nat, limit as nat, over) == Err::<nat, ParseFailure>(
                ParseFailure::InvalidDigit,
            ));
            return Err(ParseFailure::InvalidDigit);
        }
        let d = (c as u32 - '0' as u32) as u64;
        assert(d == digit_of(c));
        match acc.checked_mul(10) {
            None => {
                assert(scan_digits(rest, acc as nat, limit as nat, over) == Err::<nat, ParseFailure>(
                    over,
                ));
                return Err(over);
            },
            Some(tens) => match tens.checked_add(d) {
                None => {
                    assert(scan_digits(rest, acc as nat, limit as nat, over) == Err::<
                        nat,
                        ParseFailure,
                    >(over));
                    return Err(over);
                },
                Some(next) => {
                    if next > limit {
                        assert(scan_digits(rest, acc as nat, limit as nat, over) == Err::<
                            nat,
                            ParseFailure,
                        >(over));
                        return Err(over);
                    }
                    acc = next;
                },
            },
        }
        i = i + 1;
    }
    assert(chars@.subrange(n as int, n as int).len() == 0);
    Ok(acc)
}

/// Reads `text` as an `i32`, the way `parse_outcome` says.
pub fn parse_int(text: &str) -> (r: Result<i32, ParseFailure>)
    ensures
        r == parse_outcome(text@),
{
    let chars = chars_of(text);
    let n = chars.len();
    if n == 0 {
        return Err(ParseFailure::Empty);
    }
    let negative = chars[0] == '-';
    let start: usize = if chars[0] == '+' || negative {
        1
    } else {
        0
    };
    assert(unsigned_part(text@) =~= chars@.subrange(start as int, n as int));
    if start == n {
        return Err(ParseFailure::InvalidDigit);
    }
    if negative {
        match scan_from(&chars, start, 2147483648, ParseFailure::TooSmall) {
            Ok(m) => Ok((0 - m as i64) as i32),
            Err(e) => Err(e),
        }
    } else {
        match scan_from(&chars, start, 2147483647, ParseFailure::TooLarge) {
            Ok(m) => Ok(m as i32),
            Err(e) => Err(e),
        }
    }
}

/// Reads `text` as a `usize`, the way `size_outcome` says.
pub fn parse_size(text: &str) -> (r: Result<usize, ParseFailure>)
    ensures
        r == size_outcome(text@),
{
    let chars = chars_of(text);
    let n = chars.len();
    if n == 0 {
        return Err(ParseFailure::Empty);
    }
    let start: usize = if chars[0] == '+' {
        1
    } else {
        0
    };
    assert(unsigned_digits(text@) =~= chars@.subrange(start as int, n as int));
    if start == n {
        return Err(ParseFailure::InvalidDigit);
    }
    match scan_from(&chars, start, usize::MAX as u64, ParseFailure::TooLarge) {
        Ok(m) => Ok(m as usize),
        Err(e) => Err(e),
    }
}

/// Why a line was rejected.
#[derive(Clone, Copy, Debug, PartialEq, Eq, Structural)]
pub enum EntryError {
    /// The line does not hold an integer of the type asked for.
    Parse(ParseFailure),
    /// The line holds an integer, but not a positive one.
    NotPositive,
}

/// The diagnostic the change calculator shows for each rejected line.
pub open spec fn amount_error_text(e: EntryError) -> Seq<char> {
    match e {
        EntryError::Parse(ParseFailure::Empty) => "Parse Error: cannot parse integer from empty string"@,
        EntryError::Parse(ParseFailure::InvalidDigit) => "Parse Error: invalid digit found in string"@,
        EntryError::Parse(ParseFailure::TooLarge) => "Parse Error: number too large to fit in target type"@,
        EntryError::Parse(ParseFailure::TooSmall) => "Parse Error: number too small to fit in target type"@,
        EntryError::NotPositive => "Please enter a positive, non-zero amount."@,
    }
}

impl EntryError {
    /// The change calculator's diagnostic for the rejected line.
    pub fn amount_message(&self) -> (text: &'static str)
        ensures
            text@ == amount_error_text(*self),
    {
        match self {
            EntryError::Parse(ParseFailure::Empty) => "Parse Error: cannot parse integer from empty string",
            EntryError::Parse(ParseFailure::InvalidDigit) => "Parse Error: invalid digit found in string",
            EntryError::Parse(ParseFailure::TooLarge) => "Parse Error: number too large to fit in target type",
            EntryError::Parse(ParseFailure::TooSmall) => "Parse Error: number too small to fit in target type",
            EntryError::NotPositive => "Please enter a positive, non-zero amount.",
        }
    }

    /// The pyramid printer's diagnostic for the rejected line: one text for
    /// every reason.
    pub fn height_message(&self) -> (text: &'static str)
        ensures
            text@ == "Please enter a positive (non-zero and non-negative) integer."@,
    {
        "Please enter a positive (non-zero and non-negative) integer."
    }
}

/// What a line says as an amount of change, once trimmed: a positive `i32`
/// value, or why not.
pub open spec fn amount_outcome(line: Seq<char>) -> Result<u32, EntryError> {
    match parse_outcome(trimmed(line)) {
        Err(f) => Err(EntryError::Parse(f)),
        Ok(v) => if v <= 0 {
            Err(EntryError::NotPositive)
        } else {
            Ok(v as u32)
        },
    }
}

/// What a line says as a height, once trimmed: a positive `usize` value,
/// or why not.
pub open spec fn height_outcome(line: Seq<char>) -> Result<usize, EntryError> {
    match size_outcome(trimmed(line)) {
        Err(f) => Err(EntryError::Parse(f)),
        Ok(v) => if v == 0 {
            Err(EntryError::NotPositive)
        } else {
            Ok(v)
        },
    }
}

/// Reads one typed line as an amount of change: a positive integer in the
/// range of an `i32`, with white space around it ignored.
pub fn read_amount(line: &str) -> (r: Result<u32, EntryError>)
    ensures
        r == amount_outcome(line@),
        r is Ok ==> r->Ok_0 > 0,
{
    match parse_int(trim_line(line)) {
        Err(f) => Err(EntryError::Parse(f)),
        Ok(v) => if v <= 0 {
            Err(EntryError::NotPositive)
        } else {
            Ok(v as u32)
        },
    }
}

/// Reads one typed line as a height: a positive integer in the range of a
/// `usize`, with white space around it ignored.
pub fn read_height(line: &str) -> (r: Result<usize, EntryError>)
    ensures
        r == height_outcome(line@),
        r is Ok ==> r->Ok_0 > 0,
{
    match parse_size(trim_line(line)) {
        Err(f) => Err(EntryError::Parse(f)),
        Ok(v) => if v == 0 {
            Err(EntryError::NotPositive)
        } else {
            Ok(v)
        },
    }
}

/// What the prompt loop does next.
#[derive(Clone, Copy, Debug, PartialEq, Eq, Structural)]
pub enum ReadStep<T> {
    /// Stop asking: this positive value was entered.
    Accept(T),
    /// Report the reason and ask again.
    Retry(EntryError),
    /// The input has ended or cannot be read: no value will come.
    Abort,
}

/// The step that follows what a line says, or the end of the input (`None`).
pub open spec fn step_after<T>(outcome: Option<Result<T, EntryError>>) -> ReadStep<T> {
    match outcome {
        None => ReadStep::Abort,
        Some(Ok(v)) => ReadStep::Accept(v),
        Some(Err(e)) => ReadStep::Retry(e),
    }
}

/// Decides what the change calculator's prompt loop does with the line it
/// read, or with the end of the input (`None`): accept a positive amount,
/// ask again after a bad line, or give up.
pub fn amount_step(line: Option<&str>) -> (step: ReadStep<u32>)
    ensures
        step == step_after(
            match line {
                Some(l) => Some(amount_outcome(l@)),
                None => None,
            },
        ),
{
    match line {
        None => ReadStep::Abort,
        Some(l) => match read_amount(l) {
            Ok(v) => ReadStep::Accept(v),
            Err(e) => ReadStep::Retry(e),
        },
    }
}

/// Decides what the pyramid printer's prompt loop does with the line it
/// read, or with the end of the input (`None`): accept a positive height,
/// ask again after a bad line, or give up.
pub fn height_step(line: Option<&str>) -> (step: ReadStep<usize>)
    ensures
        step == step_after(
            match line {
                Some(l) => Some(height_outcome(l@)),
                None => None,
            },
        ),
{
    match line {
        None => ReadStep::Abort,
        Some(l) => match read_height(l) {
            Ok(v) => ReadStep::Accept(v),
            Err(e) => ReadStep::Retry(e),
        },
    }
}

} // verus!
