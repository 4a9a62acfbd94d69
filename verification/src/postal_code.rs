//! The stricter postal-code type: input is only trimmed, never upper-cased,
//! so lower-case letters are rejected.

use vstd::prelude::*;

use crate::canada_postal_code::{
    end_non_space, chars_to_string, first_non_space, lemma_trim_is_subrange, render_with_space,
    str_chars, trim_seq, valid_compact, validate_compact,
};

verus! {

/// How this module's validation can fail.
#[derive(Debug, Clone, Copy, PartialEq, Eq, Structural)]
pub enum PostalCodeError {
    /// Postal code rejected after trimming.
    InvalidPostalCode,
}

impl PostalCodeError {
    /// A short, stable text for logs and transports.
    pub fn as_text(&self) -> (r: &'static str)
        ensures
            r@ == "Invalid postal code format"@,
    {
        "Invalid postal code format"
    }
}

/// Whether the trimmed input is a postal code, upper case required.
pub open spec fn accepted_exact(s: Seq<char>) -> bool {
    let t = trim_seq(s);
    ||| valid_compact(t)
    ||| (t.len() == 7 && t[3] == ' ' && valid_compact(t.remove(3)))
}

/// The six stored characters of an accepted input.
pub open spec fn compact_exact_of(s: Seq<char>) -> Seq<char> {
    let t = trim_seq(s);
    if t.len() == 7 {
        t.remove(3)
    } else {
        t
    }
}

/// A validated postal code whose input had to be upper case already.
#[derive(Debug, PartialEq, Eq)]
pub struct PostalCode {
    code: String,
}

impl View for PostalCode {
    type V = Seq<char>;

    closed spec fn view(&self) -> Seq<char> {
        self.code@
    }
}

impl PostalCode {
    /// Everything `try_from_text` promises of the stored characters.
    pub open spec fn wf(&self) -> bool {
        valid_compact(self@)
    }

    /// Validate a trimmed input without normalising its case.
    pub fn try_from_text(value: &str) -> (r: Result<PostalCode, PostalCodeError>)
        ensures
            match r {
                Ok(pc) => accepted_exact(value@) && pc@ == compact_exact_of(value@) && pc.wf(),
                Err(e) => !accepted_exact(value@) && e == PostalCodeError::InvalidPostalCode,
            },
    {
        let chars = str_chars(value);
        let a = first_non_space(&chars);
        let b = end_non_space(&chars, a);
        proof {
            lemma_trim_is_subrange(chars@, a as int, b as int);
        }
        let mut t: Vec<char> = Vec::new();
        let mut k: usize = a;
        while k < b
            invariant
                a <= k <= b <= chars@.len(),
                t@ =~= chars@.subrange(a as int, k as int),
            decreases b - k,
        {
            t.push(chars[k]);
            proof {
                assert(t@ =~= chars@.subrange(a as int, k as int + 1));
            }
            k += 1;
        }
        proof {
            assert(t@ =~= trim_seq(value@));
        }
        let compact: Vec<char> = if t.len() == 7 {
            if !crate::canada_postal_code::char_eq(t[3], ' ') {
                return Err(PostalCodeError::InvalidPostalCode);
            }
            let mut c: Vec<char> = Vec::new();
            c.push(t[0]);
            c.push(t[1]);
            c.push(t[2]);
            c.push(t[4]);
            c.push(t[5]);
            c.push(t[6]);
            proof {
                assert(c@ =~= t@.remove(3));
            }
            c
        } else {
            t
        };
        if compact.len() != 6 {
            return Err(PostalCodeError::InvalidPostalCode);
        }
        if !validate_compact(&compact) {
            return Err(PostalCodeError::InvalidPostalCode);
        }
        let code = chars_to_string(&compact);
        Ok(PostalCode { code })
    }

    /// The display form, with a single space between the halves.
    pub fn to_text(&self) -> (r: String)
        requires
            self.wf(),
        ensures
            r@ == self@.take(3) + seq![' '] + self@.skip(3),
    {
        render_with_space(&self.code)
    }
}

} // verus!
