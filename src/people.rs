//! People with a name and an age, read from `"name:age"` text.

use vstd::prelude::*;

verus! {

/// Why a text is not a `u8`, as `u8::from_str` reports it.
#[derive(Debug, Clone, Copy, PartialEq, Eq, Structural)]
pub enum AgeError {
    /// The text is empty.
    Empty,
    /// A character is not a decimal digit (a lone sign counts as one).
    InvalidDigit,
    /// The value is above 255.
    Overflow,
}

pub open spec fn is_digit(c: char) -> bool {
    '0' <= c <= '9'
}

pub open spec fn digit_value(c: char) -> nat {
    (c as u32 - '0' as u32) as nat
}

/// Reads `digits` left to right; the first character that is no digit, or the first
/// digit that takes the value above 255, decides the error.
pub open spec fn scan_u8(digits: Seq<char>) -> Result<nat, AgeError>
    decreases digits.len(),
{
    if digits.len() == 0 {
        Ok(0)
    } else {
        match scan_u8(digits.drop_last()) {
            Err(e) => Err(e),
            Ok(v) => {
                let c = digits.last();
                if !is_digit(c) {
                    Err(AgeError::InvalidDigit)
                } else if v * 10 + digit_value(c) > 255 {
                    Err(AgeError::Overflow)
                } else {
                    Ok(v * 10 + digit_value(c))
                }
            },
        }
    }
}

/// What `u8::from_str` gives for `text`: an optional leading `+`, then decimal digits.
pub open spec fn parse_u8(text: Seq<char>) -> Result<nat, AgeError> {
    if text.len() == 0 {
        Err(AgeError::Empty)
    } else if text =~= seq!['+'] || text =~= seq!['-'] {
        Err(AgeError::InvalidDigit)
    } else if text[0] == '+' {
        scan_u8(text.skip(1))
    } else {
        scan_u8(text)
    }
}

/// The message that `ParseIntError`'s `Display` writes for each kind.
pub open spec fn age_error_text(e: AgeError) -> Seq<char> {
    match e {
        AgeError::Empty => "cannot parse integer from empty string"@,
        AgeError::InvalidDigit => "invalid digit found in string"@,
        AgeError::Overflow => "number too large to fit in target type"@,
    }
}

/// `text` holds exactly one `':'`, at `k`.
pub open spec fn single_colon_at(text: Seq<char>, k: int) -> bool {
    &&& 0 <= k < text.len()
    &&& text[k] == ':'
    &&& forall|j: int| 0 <= j < text.len() && j != k ==> #[trigger] text[j] != ':'
}

pub open spec fn has_single_colon(text: Seq<char>) -> bool {
    exists|k: int| single_colon_at(text, k)
}

/// A person: name and age.
#[derive(Debug, Clone, PartialEq, Eq)]
pub struct User {
    pub name: String,
    pub age: u8,
}

impl User {
    pub fn new(name: String, age: u8) -> (r: User)
        ensures
            r.name == name,
            r.age == age,
    {
        User { name, age }
    }
}

impl Default for User {
    /// `"Default"`, aged 0.
    fn default() -> (r: User)
        ensures
            r.name@ == "Default"@,
            r.age == 0,
    {
        User { name: String::from_str("Default"), age: 0 }
    }
}

impl std::str::FromStr for User {
    type Err = String;

    fn from_str(s: &str) -> Result<User, String> {
        create_user_from_str(s)
    }
}

/// Reads a `u8` as `u8::from_str` does.
pub fn parse_age(text: &str) -> (r: Result<u8, AgeError>)
    ensures
        match parse_u8(text@) {
            Ok(v) => r == Ok::<u8, AgeError>(v as u8),
            Err(e) => r == Err::<u8, AgeError>(e),
        },
{
    let len = text.unicode_len();
    if len == 0 {
        return Err(AgeError::Empty);
    }
    let first = text.get_char(0);
    let mut start: usize = 0;
    if first == '+' || first == '-' {
        if len == 1 {
            assert(text@ =~= seq![first]);
            return Err(AgeError::InvalidDigit);
        }
        if first == '+' {
            start = 1;
        }
    }
    let ghost digits = text@.skip(start as int);
    assert(parse_u8(text@) == scan_u8(digits)) by {
        if start == 0 {
            assert(digits =~= text@);
        }
    }
    let mut value: u32 = 0;
    let mut i: usize = start;
    while i < len
        invariant
            start <= i <= len,
            len == text@.len(),
            digits == text@.skip(start as int),
            parse_u8(text@) == scan_u8(digits),
            scan_u8(digits.take(i - start)) == Ok::<nat, AgeError>(value as nat),
            value <= 255,
        decreases len - i,
    {
        let c = text.get_char(i);
        assert(digits.take(i - start + 1).drop_last() =~= digits.take(i - start));
        assert(digits.take(i - start + 1).last() == c);
        if !('0' <= c && c <= '9') {
            proof {
                lemma_scan_keeps_error(digits, (i - start + 1) as int, AgeError::InvalidDigit);
            }
            return Err(AgeError::InvalidDigit);
        }
        let next = value * 10 + (c as u32 - '0' as u32);
        if next > 255 {
            proof {
                lemma_scan_keeps_error(digits, (i - start + 1) as int, AgeError::Overflow);
            }
            return Err(AgeError::Overflow);
        }
        value = next;
        i = i + 1;
    }
    assert(digits.take(len - start) =~= digits);
    Ok(value as u8)
}

/// Once a prefix fails, every longer prefix fails the same way.
proof fn lemma_scan_keeps_error(digits: Seq<char>, n: int, e: AgeError)
    requires
        0 <= n <= digits.len(),
        scan_u8(digits.take(n)) == Err::<nat, AgeError>(e),
    ensures
        scan_u8(digits) == Err::<nat, AgeError>(e),
    decreases digits.len() - n,
{
    if n < digits.len() {
        assert(digits.take(n + 1).drop_last() =~= digits.take(n));
        lemma_scan_keeps_error(digits, n + 1, e);
    } else {
        assert(digits.take(n) =~= digits);
    }
}

/// Reads `"name:age"`: exactly one `':'`, the name before it, an age after it that
/// `u8::from_str` accepts.
pub fn create_user_from_str(input: &str) -> (r: Result<User, String>)
    ensures
        !has_single_colon(input@) ==> (r matches Err(m) && m@
            == "Geçersiz format, 'name:age' bekleniyor"@),
        forall|k: int|
            single_colon_at(input@, k) ==> match parse_u8(#[trigger] input@.skip(k + 1)) {
                Ok(v) => r matches Ok(u) && u.name@ == input@.take(k) && u.age == v,
                Err(e) => r matches Err(m) && m@ == "Yaş parse hatası: "@ + age_error_text(e),
            },
{
    let len = input.unicode_len();
    let mut colon: usize = len;
    let mut i: usize = 0;
    while i < len
        invariant
            i <= len,
            colon <= len,
            len == input@.len(),
            colon == len ==> forall|j: int| 0 <= j < i ==> #[trigger] input@[j] != ':',
            colon < len ==> colon < i && input@[colon as int] == ':' && forall|j: int|
                0 <= j < i && j != colon ==> #[trigger] input@[j] != ':',
        decreases len - i,
    {
        let c = input.get_char(i);
        if c == ':' {
            if colon < len {
                return Err(String::from_str("Geçersiz format, 'name:age' bekleniyor"));
            }
            colon = i;
        }
        i = i + 1;
    }
    if colon == len {
        return Err(String::from_str("Geçersiz format, 'name:age' bekleniyor"));
    }
    assert(single_colon_at(input@, colon as int));
    let name = input.substring_char(0, colon).to_owned();
    let age_text = input.substring_char(colon + 1, len);
    assert(age_text@ =~= input@.skip(colon + 1));
    match parse_age(age_text) {
        Ok(age) => Ok(User { name, age }),
        Err(e) => {
            let mut message = String::from_str("Yaş parse hatası: ");
            message.append(age_error_message(e));
            Err(message)
        },
    }
}

fn age_error_message(e: AgeError) -> (r: &'static str)
    ensures
        r@ == age_error_text(e),
{
    match e {
        AgeError::Empty => "cannot parse integer from empty string",
        AgeError::InvalidDigit => "invalid digit found in string",
        AgeError::Overflow => "number too large to fit in target type",
    }
}

} // verus!
