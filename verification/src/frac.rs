//! Fixed-point fractional numbers.
//!
//! The wire format carries a handful of fractional values (proficiency
//! multipliers, damage multipliers, item weights). Every value this model
//! ever inspects is a multiple of one hundredth, so the model stores such a
//! number exactly as a signed count of hundredths.

use vstd::prelude::*;

verus! {

/// A fractional number stored as a count of hundredths.
///
/// `Frac { hundredths: 150 }` is the number 1.5; `Frac { hundredths: -49 }`
/// is -0.49.
#[derive(Clone, Copy, Debug, PartialEq, Eq, Structural, Hash)]
pub struct Frac {
    pub hundredths: i64,
}

impl Frac {
    /// Build a fraction from a count of hundredths.
    pub fn from_hundredths(hundredths: i64) -> (r: Frac)
        ensures
            r.hundredths == hundredths,
    {
        Frac { hundredths }
    }

    /// Build a fraction from a whole number, when the scaling stays in range.
    pub fn from_whole(units: i64) -> (r: Option<Frac>)
        ensures
            -92233720368547758 <= units <= 92233720368547758 ==> (r matches Some(f)
                && f.hundredths == units * 100),
            !(-92233720368547758 <= units <= 92233720368547758) ==> r is None,
    {
        if -92233720368547758 <= units && units <= 92233720368547758 {
            Some(Frac { hundredths: units * 100 })
        } else {
            None
        }
    }

    /// The stored count of hundredths.
    pub fn hundredths(&self) -> (r: i64)
        ensures
            r == self.hundredths,
    {
        self.hundredths
    }

    /// Whether this fraction is exactly the whole number `units`.
    pub fn is_whole(&self, units: i64) -> (r: bool)
        ensures
            r == (self.hundredths == units * 100),
    {
        if -92233720368547758 <= units && units <= 92233720368547758 {
            self.hundredths == units * 100
        } else {
            false
        }
    }
}

impl Frac {
    /// Render the fraction as text: integer part, then the fractional digits
    /// with trailing zeros dropped.
    #[verifier::rlimit(50)]
    pub fn render(&self) -> (r: String)
        ensures
            r@ == crate::generic_model::frac_text(self.hundredths as int),
    {
        let h: i64 = self.hundredths;
        let neg: bool = h < 0;
        let m: u64 = if h == -9223372036854775808i64 {
            9223372036854775808u64
        } else if h < 0 {
            (-h) as u64
        } else {
            h as u64
        };
        let mut digits: Vec<char> = crate::text::dec_chars_u64(m / 100);
        let fr: u64 = m % 100;
        if fr != 0 {
            digits.push('.');
            digits.push((48 + fr / 10) as u8 as char);
            if fr % 10 != 0 {
                digits.push((48 + fr % 10) as u8 as char);
            }
        }
        if neg {
            digits.insert(0, '-');
        }
        proof {
            let hh = self.hundredths as int;
            let mm = if hh < 0 {
                -hh
            } else {
                hh
            };
            assert(mm == m as int);
            let sign: Seq<char> = if hh < 0 {
                seq!['-']
            } else {
                Seq::<char>::empty()
            };
            if mm % 100 == 0 {
                assert(digits@ =~= sign + crate::text::dec_nat(mm / 100));
            } else if mm % 10 == 0 {
                assert(mm / 10 % 10 == mm % 100 / 10);
                assert(digits@ =~= sign + crate::text::dec_nat(mm / 100) + seq!['.'] + seq![
                    crate::text::dec_digit(mm / 10 % 10),
                ]);
            } else {
                assert(mm / 10 % 10 == mm % 100 / 10);
                assert(mm % 10 == mm % 100 % 10);
                assert(digits@ =~= sign + crate::text::dec_nat(mm / 100) + seq!['.'] + seq![
                    crate::text::dec_digit(mm / 10 % 10),
                ] + seq![crate::text::dec_digit(mm % 10)]);
            }
        }
        crate::text::string_from_chars(digits)
    }
}

impl Default for Frac {
    /// The zero fraction.
    fn default() -> (r: Self)
        ensures
            r.hundredths == 0,
    {
        Frac { hundredths: 0 }
    }
}

} // verus!
