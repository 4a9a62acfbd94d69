//! A postal-code variant with a more forgiving sanitiser: after trimming
//! and upper-casing, every space is removed before validation, wherever it
//! stood.

use vstd::prelude::*;

use crate::canada_postal_code::{
    chars_to_string, normalized, str_chars, upper_exec, upper_seq, valid_compact, validate_compact,
};
use crate::errors::OrderError;

verus! {

/// The input without any space character.
pub open spec fn without_spaces(s: Seq<char>) -> Seq<char>
    decreases s.len(),
{
    if s.len() == 0 {
        s
    } else if s.first() == ' ' {
        without_spaces(s.drop_first())
    } else {
        seq![s.first()] + without_spaces(s.drop_first())
    }
}

/// Whether the input is a postal code once trimmed, upper-cased and freed
/// of all spaces.
pub open spec fn accepted_sanitized(s: Seq<char>) -> bool {
    valid_compact(without_spaces(normalized(s)))
}

/// A postal code validated after the forgiving sanitisation.
#[derive(Debug, PartialEq, Eq)]
pub struct CanadaPostalCodeNuType {
    code: String,
}

impl View for CanadaPostalCodeNuType {
    type V = Seq<char>;

    closed spec fn view(&self) -> Seq<char> {
        self.code@
    }
}

impl CanadaPostalCodeNuType {
    /// Everything `parse` promises of the stored characters.
    pub open spec fn wf(&self) -> bool {
        valid_compact(self@)
    }

    /// Trim, upper-case and drop every space, then validate.
    pub fn parse(s: &str) -> (r: Result<CanadaPostalCodeNuType, OrderError>)
        ensures
            match r {
                Ok(pc) => accepted_sanitized(s@) && pc@ == without_spaces(normalized(s@))
                    && pc.wf(),
                Err(e) => !accepted_sanitized(s@) && e == OrderError::InvalidPostalCode,
            },
    {
        let chars = str_chars(s);
        let a = crate::canada_postal_code::first_non_space(&chars);
        let b = crate::canada_postal_code::end_non_space(&chars, a);
        proof {
            crate::canada_postal_code::lemma_trim_is_subrange(chars@, a as int, b as int);
        }
        let mut kept: Vec<char> = Vec::new();
        let mut k: usize = a;
        while k < b
            invariant
                a <= k <= b <= chars@.len(),
                without_spaces(upper_seq(chars@.subrange(a as int, b as int)))
                    == kept@ + without_spaces(upper_seq(chars@.subrange(k as int, b as int))),
            decreases b - k,
        {
            let c = upper_exec(chars[k]);
            proof {
                let rest = upper_seq(chars@.subrange(k as int, b as int));
                let rest_next = upper_seq(chars@.subrange(k as int + 1, b as int));
                assert(rest.len() > 0);
                assert(rest.first() == crate::canada_postal_code::upper_char(chars@[k as int]));
                assert(rest.drop_first() =~= rest_next);
                if rest.first() == ' ' {
                    assert(without_spaces(rest) == without_spaces(rest_next));
                } else {
                    assert(without_spaces(rest) == seq![rest.first()] + without_spaces(rest_next));
                    assert((kept@ + seq![rest.first()]) + without_spaces(rest_next) =~= kept@ + (
                    seq![rest.first()] + without_spaces(rest_next)));
                    assert(kept@.push(rest.first()) =~= kept@ + seq![rest.first()]);
                }
            }
            if !crate::canada_postal_code::char_eq(c, ' ') {
                kept.push(c);
            }
            k += 1;
        }
        proof {
            assert(upper_seq(chars@.subrange(b as int, b as int)) =~= Seq::<char>::empty());
            assert(without_spaces(Seq::<char>::empty()) == Seq::<char>::empty());
            assert(kept@ + Seq::<char>::empty() =~= kept@);
            assert(upper_seq(chars@.subrange(a as int, b as int)) =~= normalized(s@));
            assert(kept@ == without_spaces(normalized(s@)));
        }
        if kept.len() != 6 {
            return Err(OrderError::InvalidPostalCode);
        }
        if !validate_compact(&kept) {
            return Err(OrderError::InvalidPostalCode);
        }
        let code = chars_to_string(&kept);
        Ok(CanadaPostalCodeNuType { code })
    }

    /// The six stored characters.
    pub fn to_text(&self) -> (r: String)
        ensures
            r@ == self@,
    {
        crate::non_empty_cart::clone_string(&self.code)
    }
}

} // verus!
