//! Canadian postal codes, validated after trimming and upper-casing.
//!
//! A code is accepted with or without the middle space (`A1A 0B0` or
//! `A1A0B0`), stored as six characters without the space, and rendered with
//! a single space between the third and fourth characters.
//!
//! Normalisation is deliberately ASCII: trimming removes the ASCII
//! whitespace characters and upper-casing maps `a`..`z` alone, stated
//! exactly by [`is_space_char`] and [`upper_char`]. Every character a valid
//! code can contain is ASCII, so an input needing a wider normalisation
//! could at most be rejected, never mis-read.

use vstd::prelude::*;
use vstd::string::*;

use crate::errors::OrderError;

verus! {

/// The whitespace removed from either end of the input before validation:
/// the ASCII space, tab, line feed and carriage return. Exotic Unicode
/// whitespace is not trimmed and leads to rejection.
pub open spec fn is_space_char(c: char) -> bool {
    c == ' ' || c == '\t' || c == '\n' || c == '\r'
}

/// ASCII upper-casing of one character; every character outside `a`..`z`,
/// Unicode letters included, is unchanged.
pub open spec fn upper_char(c: char) -> char {
    match c {
        'a' => 'A',
        'b' => 'B',
        'c' => 'C',
        'd' => 'D',
        'e' => 'E',
        'f' => 'F',
        'g' => 'G',
        'h' => 'H',
        'i' => 'I',
        'j' => 'J',
        'k' => 'K',
        'l' => 'L',
        'm' => 'M',
        'n' => 'N',
        'o' => 'O',
        'p' => 'P',
        'q' => 'Q',
        'r' => 'R',
        's' => 'S',
        't' => 'T',
        'u' => 'U',
        'v' => 'V',
        'w' => 'W',
        'x' => 'X',
        'y' => 'Y',
        'z' => 'Z',
        _ => c,
    }
}

/// The input with leading and trailing whitespace removed.
pub open spec fn trim_seq(s: Seq<char>) -> Seq<char>
    decreases s.len(),
{
    if s.len() == 0 {
        s
    } else if is_space_char(s.first()) {
        trim_seq(s.drop_first())
    } else if is_space_char(s.last()) {
        trim_seq(s.drop_last())
    } else {
        s
    }
}

/// The input upper-cased character by character.
pub open spec fn upper_seq(s: Seq<char>) -> Seq<char> {
    s.map_values(|c: char| upper_char(c))
}

/// The letters allowed to open a postal code; they name the region.
pub open spec fn is_first_letter(c: char) -> bool {
    ||| c == 'A'
    ||| c == 'B'
    ||| c == 'C'
    ||| c == 'E'
    ||| c == 'G'
    ||| c == 'H'
    ||| c == 'J'
    ||| c == 'K'
    ||| c == 'L'
    ||| c == 'M'
    ||| c == 'N'
    ||| c == 'P'
    ||| c == 'R'
    ||| c == 'S'
    ||| c == 'T'
    ||| c == 'V'
    ||| c == 'X'
    ||| c == 'Y'
}

/// The letters allowed in the later positions.
pub open spec fn is_inner_letter(c: char) -> bool {
    is_first_letter(c) || c == 'W' || c == 'Z'
}

/// A decimal digit.
pub open spec fn is_digit_char(c: char) -> bool {
    ||| c == '0'
    ||| c == '1'
    ||| c == '2'
    ||| c == '3'
    ||| c == '4'
    ||| c == '5'
    ||| c == '6'
    ||| c == '7'
    ||| c == '8'
    ||| c == '9'
}

/// Six characters in the stored shape: letter, digit, letter, digit,
/// letter, digit, with the first letter from the regional set.
pub open spec fn valid_compact(s: Seq<char>) -> bool {
    &&& s.len() == 6
    &&& is_first_letter(s[0])
    &&& is_digit_char(s[1])
    &&& is_inner_letter(s[2])
    &&& is_digit_char(s[3])
    &&& is_inner_letter(s[4])
    &&& is_digit_char(s[5])
}

/// The normalised input: trimmed, then upper-cased.
pub open spec fn normalized(s: Seq<char>) -> Seq<char> {
    upper_seq(trim_seq(s))
}

/// Whether the input is a postal code, with or without the middle space.
pub open spec fn accepted(s: Seq<char>) -> bool {
    let t = normalized(s);
    ||| valid_compact(t)
    ||| (t.len() == 7 && t[3] == ' ' && valid_compact(t.remove(3)))
}

/// The six stored characters of an accepted input.
pub open spec fn compact_of(s: Seq<char>) -> Seq<char> {
    let t = normalized(s);
    if t.len() == 7 {
        t.remove(3)
    } else {
        t
    }
}

/// A validated postal code, stored as six characters without the space.
#[derive(Debug, PartialEq, Eq)]
pub struct CanadaPostalCode {
    code: String,
}

impl View for CanadaPostalCode {
    type V = Seq<char>;

    closed spec fn view(&self) -> Seq<char> {
        self.code@
    }
}

impl CanadaPostalCode {
    /// Everything `parse` promises of the stored characters.
    pub open spec fn wf(&self) -> bool {
        valid_compact(self@)
    }

    /// Validate an input after trim and upper-casing, keeping the six
    /// significant characters.
    #[verifier::rlimit(80)]
    pub fn parse(s: &str) -> (r: Result<CanadaPostalCode, OrderError>)
        ensures
            match r {
                Ok(pc) => accepted(s@) && pc@ == compact_of(s@) && pc.wf(),
                Err(e) => !accepted(s@) && e == OrderError::InvalidPostalCode,
            },
    {
        let chars = str_chars(s);
        let a = first_non_space(&chars);
        let b = end_non_space(&chars, a);
        proof {
            lemma_trim_is_subrange(chars@, a as int, b as int);
        }
        let mut t: Vec<char> = Vec::new();
        let mut k: usize = a;
        while k < b
            invariant
                a <= k <= b <= chars@.len(),
                t@.len() == k - a,
                forall|i: int| 0 <= i < t@.len() ==> t@[i] == upper_char(chars@[a + i]),
            decreases b - k,
        {
            t.push(upper_exec(chars[k]));
            k += 1;
        }
        proof {
            let trimmed = chars@.subrange(a as int, b as int);
            assert forall|i: int| 0 <= i < t@.len() implies t@[i] == upper_seq(trimmed)[i] by {
                assert(t@[i] == upper_char(chars@[a + i]));
            }
            assert(t@ =~= normalized(s@));
        }
        let compact: Vec<char> = if t.len() == 7 {
            if !char_eq(t[3], ' ') {
                proof {
                    assert(!accepted(s@));
                }
                return Err(OrderError::InvalidPostalCode);
            }
            let mut c: Vec<char> = Vec::new();
            c.push(t[0]);
            c.push(t[1]);
            c.push(t[2]);
            c.push(t[4]);
            c.push(t[5]);
            c.push(t[6]);
            proof {
                assert(c@ =~= t@.remove(3));
            }
            c
        } else {
            t
        };
        if compact.len() != 6 {
            proof {
                assert(!accepted(s@));
            }
            return Err(OrderError::InvalidPostalCode);
        }
        if !validate_compact(&compact) {
            proof {
                assert(!accepted(s@));
            }
            return Err(OrderError::InvalidPostalCode);
        }
        proof {
            assert(accepted(s@));
            assert(compact@ == compact_of(s@));
        }
        let code = chars_to_string(&compact);
        Ok(CanadaPostalCode { code })
    }

    /// The display form, with a single space between the halves.
    pub fn to_text(&self) -> (r: String)
        requires
            self.wf(),
        ensures
            r@ == self@.take(3) + seq![' '] + self@.skip(3),
    {
        render_with_space(&self.code)
    }

    /// The six stored characters, without the space.
    pub fn compact_text(&self) -> (r: String)
        ensures
            r@ == self@,
    {
        crate::non_empty_cart::clone_string(&self.code)
    }
}

impl Clone for CanadaPostalCode {
    fn clone(&self) -> (r: Self)
        ensures
            r@ == self@,
    {
        CanadaPostalCode { code: crate::non_empty_cart::clone_string(&self.code) }
    }
}

/// The display form of a stored code: the two halves joined by a space.
pub(crate) fn render_with_space(code: &String) -> (r: String)
    requires
        valid_compact(code@),
    ensures
        r@ == code@.take(3) + seq![' '] + code@.skip(3),
{
    proof {
        lemma_valid_compact_is_ascii(code@);
        reveal_strlit(" ");
    }
    let head = code.as_str().substring_ascii(0, 3);
    let tail = code.as_str().substring_ascii(3, 6);
    let r = head.to_owned().concat(" ").concat(tail);
    proof {
        assert(r@ =~= code@.take(3) + seq![' '] + code@.skip(3));
    }
    r
}

/// The characters of a string, in order.
pub fn str_chars(s: &str) -> (r: Vec<char>)
    ensures
        r@ == s@,
{
    let n = s.unicode_len();
    let mut r: Vec<char> = Vec::new();
    let mut i: usize = 0;
    while i < n
        invariant
            i <= n,
            n == s@.len(),
            r@ =~= s@.take(i as int),
        decreases n - i,
    {
        r.push(s.get_char(i));
        i += 1;
    }
    proof {
        assert(s@.take(n as int) =~= s@);
    }
    r
}

/// Equality of two characters.
pub(crate) fn char_eq(a: char, b: char) -> (r: bool)
    ensures
        r == (a == b),
{
    a == b
}

/// The index of the first non-whitespace character, or the length.
pub(crate) fn first_non_space(chars: &Vec<char>) -> (a: usize)
    ensures
        a <= chars@.len(),
        forall|i: int| 0 <= i < a ==> is_space_char(chars@[i]),
        a < chars@.len() ==> !is_space_char(chars@[a as int]),
{
    let mut a: usize = 0;
    while a < chars.len()
        invariant
            a <= chars@.len(),
            forall|i: int| 0 <= i < a ==> is_space_char(chars@[i]),
        decreases chars@.len() - a,
    {
        if !space_exec(chars[a]) {
            return a;
        }
        a += 1;
    }
    a
}

/// One past the last non-whitespace character at or after `a`, or `a`.
pub(crate) fn end_non_space(chars: &Vec<char>, a: usize) -> (b: usize)
    requires
        a <= chars@.len(),
        forall|i: int| 0 <= i < a ==> is_space_char(chars@[i]),
        a < chars@.len() ==> !is_space_char(chars@[a as int]),
    ensures
        a <= b <= chars@.len(),
        forall|i: int| b <= i < chars@.len() ==> is_space_char(chars@[i]),
        a < b ==> !is_space_char(chars@[b - 1]) && !is_space_char(chars@[a as int]),
        a == b ==> a == chars@.len() || forall|i: int| 0 <= i < chars@.len() ==> is_space_char(chars@[i]),
{
    let mut b: usize = chars.len();
    while b > a
        invariant
            a <= b <= chars@.len(),
            forall|i: int| b <= i < chars@.len() ==> is_space_char(chars@[i]),
            a < chars@.len() ==> !is_space_char(chars@[a as int]),
        decreases b,
    {
        if !space_exec(chars[b - 1]) {
            return b;
        }
        b -= 1;
    }
    b
}

/// Exec mirror of [`is_space_char`].
fn space_exec(c: char) -> (r: bool)
    ensures
        r == is_space_char(c),
{
    c == ' ' || c == '\t' || c == '\n' || c == '\r'
}

/// Exec mirror of [`upper_char`].
pub(crate) fn upper_exec(c: char) -> (r: char)
    ensures
        r == upper_char(c),
{
    match c {
        'a' => 'A',
        'b' => 'B',
        'c' => 'C',
        'd' => 'D',
        'e' => 'E',
        'f' => 'F',
        'g' => 'G',
        'h' => 'H',
        'i' => 'I',
        'j' => 'J',
        'k' => 'K',
        'l' => 'L',
        'm' => 'M',
        'n' => 'N',
        'o' => 'O',
        'p' => 'P',
        'q' => 'Q',
        'r' => 'R',
        's' => 'S',
        't' => 'T',
        'u' => 'U',
        'v' => 'V',
        'w' => 'W',
        'x' => 'X',
        'y' => 'Y',
        'z' => 'Z',
        _ => c,
    }
}

/// Exec mirror of [`is_first_letter`].
fn first_letter_exec(c: char) -> (r: bool)
    ensures
        r == is_first_letter(c),
{
    c == 'A' || c == 'B' || c == 'C' || c == 'E' || c == 'G' || c == 'H' || c == 'J' || c == 'K'
        || c == 'L' || c == 'M' || c == 'N' || c == 'P' || c == 'R' || c == 'S' || c == 'T'
        || c == 'V' || c == 'X' || c == 'Y'
}

/// Exec mirror of [`is_inner_letter`].
fn inner_letter_exec(c: char) -> (r: bool)
    ensures
        r == is_inner_letter(c),
{
    first_letter_exec(c) || c == 'W' || c == 'Z'
}

/// Exec mirror of [`is_digit_char`].
fn digit_exec(c: char) -> (r: bool)
    ensures
        r == is_digit_char(c),
{
    c == '0' || c == '1' || c == '2' || c == '3' || c == '4' || c == '5' || c == '6' || c == '7'
        || c == '8' || c == '9'
}

/// Exec mirror of [`valid_compact`].
pub(crate) fn validate_compact(s: &Vec<char>) -> (r: bool)
    requires
        s@.len() == 6,
    ensures
        r == valid_compact(s@),
{
    first_letter_exec(s[0]) && digit_exec(s[1]) && inner_letter_exec(s[2]) && digit_exec(s[3])
        && inner_letter_exec(s[4]) && digit_exec(s[5])
}

/// A one-character string for any character a stored code can hold.
fn char_str(c: char) -> (r: &'static str)
    requires
        is_inner_letter(c) || is_digit_char(c),
    ensures
        r@.len() == 1 && r@[0] == c,
{
    match c {
        'A' => {
            proof {
                reveal_strlit("A");
            }
            "A"
        },
        'B' => {
            proof {
                reveal_strlit("B");
            }
            "B"
        },
        'C' => {
            proof {
                reveal_strlit("C");
            }
            "C"
        },
        'E' => {
            proof {
                reveal_strlit("E");
            }
            "E"
        },
        'G' => {
            proof {
                reveal_strlit("G");
            }
            "G"
        },
        'H' => {
            proof {
                reveal_strlit("H");
            }
            "H"
        },
        'J' => {
            proof {
                reveal_strlit("J");
            }
            "J"
        },
        'K' => {
            proof {
                reveal_strlit("K");
            }
            "K"
        },
        'L' => {
            proof {
                reveal_strlit("L");
            }
            "L"
        },
        'M' => {
            proof {
                reveal_strlit("M");
            }
            "M"
        },
        'N' => {
            proof {
                reveal_strlit("N");
            }
            "N"
        },
        'P' => {
            proof {
                reveal_strlit("P");
            }
            "P"
        },
        'R' => {
            proof {
                reveal_strlit("R");
            }
            "R"
        },
        'S' => {
            proof {
                reveal_strlit("S");
            }
            "S"
        },
        'T' => {
            proof {
                reveal_strlit("T");
            }
            "T"
        },
        'V' => {
            proof {
                reveal_strlit("V");
            }
            "V"
        },
        'W' => {
            proof {
                reveal_strlit("W");
            }
            "W"
        },
        'X' => {
            proof {
                reveal_strlit("X");
            }
            "X"
        },
        'Y' => {
            proof {
                reveal_strlit("Y");
            }
            "Y"
        },
        'Z' => {
            proof {
                reveal_strlit("Z");
            }
            "Z"
        },
        '0' => {
            proof {
                reveal_strlit("0");
            }
            "0"
        },
        '1' => {
            proof {
                reveal_strlit("1");
            }
            "1"
        },
        '2' => {
            proof {
                reveal_strlit("2");
            }
            "2"
        },
        '3' => {
            proof {
                reveal_strlit("3");
            }
            "3"
        },
        '4' => {
            proof {
                reveal_strlit("4");
            }
            "4"
        },
        '5' => {
            proof {
                reveal_strlit("5");
            }
            "5"
        },
        '6' => {
            proof {
                reveal_strlit("6");
            }
            "6"
        },
        '7' => {
            proof {
                reveal_strlit("7");
            }
            "7"
        },
        '8' => {
            proof {
                reveal_strlit("8");
            }
            "8"
        },
        _ => {
            proof {
                reveal_strlit("9");
            }
            "9"
        },
    }
}

/// A string holding exactly the given valid code characters.
pub(crate) fn chars_to_string(chars: &Vec<char>) -> (r: String)
    requires
        forall|i: int|
            0 <= i < chars@.len() ==> is_inner_letter(chars@[i]) || is_digit_char(chars@[i]),
    ensures
        r@ == chars@,
{
    let mut r = String::new();
    let mut i: usize = 0;
    while i < chars.len()
        invariant
            i <= chars@.len(),
            r@ =~= chars@.take(i as int),
            forall|k: int|
                0 <= k < chars@.len() ==> is_inner_letter(chars@[k]) || is_digit_char(chars@[k]),
        decreases chars@.len() - i,
    {
        r.append(char_str(chars[i]));
        i += 1;
    }
    proof {
        assert(chars@.take(chars@.len() as int) =~= chars@);
    }
    r
}

/// The characters a valid code stores are all ASCII.
proof fn lemma_valid_compact_is_ascii(s: Seq<char>)
    requires
        valid_compact(s),
    ensures
        vstd::utf8::is_ascii_chars(s),
{
    assert forall|i: int| 0 <= i < s.len() implies '\0' <= #[trigger] s[i] <= '\u{7f}' by {
        assert(is_inner_letter(s[i]) || is_digit_char(s[i]));
    }
}

/// The recursive trim equals the subrange between the first and last
/// non-whitespace characters.
pub(crate) proof fn lemma_trim_is_subrange(s: Seq<char>, a: int, b: int)
    requires
        0 <= a <= b <= s.len(),
        forall|i: int| 0 <= i < a ==> is_space_char(s[i]),
        forall|i: int| b <= i < s.len() ==> is_space_char(s[i]),
        a < b ==> !is_space_char(s[a]) && !is_space_char(s[b - 1]),
    ensures
        trim_seq(s) == s.subrange(a, b),
    decreases s.len(),
{
    if s.len() == 0 {
        assert(s.subrange(a, b) =~= s);
    } else if is_space_char(s.first()) {
        if a == b {
            lemma_trim_is_subrange(s.drop_first(), 0, 0);
            assert(s.subrange(a, b) =~= s.drop_first().subrange(0, 0));
        } else {
            lemma_trim_is_subrange(s.drop_first(), a - 1, b - 1);
            assert(s.subrange(a, b) =~= s.drop_first().subrange(a - 1, b - 1));
        }
    } else if is_space_char(s.last()) {
        if a == b {
            lemma_trim_is_subrange(s.drop_last(), 0, 0);
            assert(s.subrange(a, b) =~= s.drop_last().subrange(0, 0));
        } else {
            lemma_trim_is_subrange(s.drop_last(), a, b);
            assert(s.subrange(a, b) =~= s.drop_last().subrange(a, b));
        }
    } else {
        assert(a == 0 && b == s.len());
        assert(s.subrange(a, b) =~= s);
    }
}

} // verus!
