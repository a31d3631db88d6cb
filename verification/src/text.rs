//! Verified text utilities.
//!
//! The summary pass leans on a handful of string operations: equality,
//! substring search, substring replacement, ASCII case folding, decimal
//! rendering and decimal parsing. They are implemented here over character
//! vectors, each against an exact specification.

use vstd::prelude::*;

verus! {

use vstd::string::StrSliceExecFns;

/// Read a string out into its character vector.
pub fn chars_of(s: &str) -> (v: Vec<char>)
    ensures
        v@ == s@,
{
    let n: usize = s.unicode_len();
    let mut v: Vec<char> = Vec::new();
    let mut i: usize = 0;
    while i < n
        invariant
            n == s@.len(),
            i <= n,
            v@ == s@.take(i as int),
        decreases n - i,
    {
        v.push(s.get_char(i));
        i = i + 1;
        assert(v@ =~= s@.take(i as int));
    }
    assert(v@ =~= s@);
    v
}

/// Turn a character vector into a `String`.
///
/// Relies on `String`'s `FromIterator<char>` implementation: collecting
/// characters yields the string of exactly those characters in order.
#[verifier::external_body]
pub fn string_from_chars(v: Vec<char>) -> (s: String)
    ensures
        s@ == v@,
{
    String::from_iter(v.into_iter())
}

/// Character-for-character string equality.
pub fn str_eq(a: &str, b: &str) -> (r: bool)
    ensures
        r == (a@ == b@),
{
    let na: usize = a.unicode_len();
    let nb: usize = b.unicode_len();
    if na != nb {
        return false;
    }
    let mut i: usize = 0;
    while i < na
        invariant
            na == a@.len(),
            na == b@.len(),
            i <= na,
            forall|j: int| 0 <= j < i ==> a@[j] == b@[j],
        decreases na - i,
    {
        if a.get_char(i) != b.get_char(i) {
            return false;
        }
        i = i + 1;
    }
    assert(a@ =~= b@);
    true
}

/// Equality between an owned string and a string slice.
pub fn string_eq_str(a: &String, b: &str) -> (r: bool)
    ensures
        r == (a@ == b@),
{
    str_eq(a.as_str(), b)
}

/// The ASCII lower-case counterpart of a character.
pub open spec fn lower_char(c: char) -> char {
    if 65 <= c as u32 && c as u32 <= 90 {
        ((c as u32 + 32) as u8) as char
    } else {
        c
    }
}

/// A character sequence folded to ASCII lower case.
pub open spec fn lower(s: Seq<char>) -> Seq<char> {
    s.map_values(|c: char| lower_char(c))
}

/// Fold a string to ASCII lower case.
pub fn to_lowercase(s: &str) -> (r: String)
    ensures
        r@ == lower(s@),
{
    let n: usize = s.unicode_len();
    let mut v: Vec<char> = Vec::new();
    let mut i: usize = 0;
    while i < n
        invariant
            n == s@.len(),
            i <= n,
            v@ == lower(s@.take(i as int)),
        decreases n - i,
    {
        let c: char = s.get_char(i);
        let u: u32 = c as u32;
        if 65 <= u && u <= 90 {
            v.push(((u + 32) as u8) as char);
        } else {
            v.push(c);
        }
        i = i + 1;
        assert(v@ =~= lower(s@.take(i as int)));
    }
    assert(s@.take(n as int) =~= s@);
    string_from_chars(v)
}

/// Whether `pat` occurs as a contiguous subsequence of `s`.
pub open spec fn contains_seq(s: Seq<char>, pat: Seq<char>) -> bool {
    exists|i: int|
        0 <= i && i + pat.len() <= s.len() && #[trigger] s.subrange(i, i + pat.len() as int)
            == pat
}

/// Whether `pat` occurs at position `i` of `s`.
fn matches_at(s: &Vec<char>, pat: &Vec<char>, i: usize) -> (r: bool)
    requires
        i + pat@.len() <= s@.len(),
    ensures
        r == (s@.subrange(i as int, i + pat@.len() as int) == pat@),
{
    let m: usize = pat.len();
    let n: usize = s.len();
    let mut j: usize = 0;
    while j < m
        invariant
            m == pat@.len(),
            n == s@.len(),
            i + m <= n,
            j <= m,
            forall|k: int| 0 <= k < j ==> s@[i + k] == pat@[k],
        decreases m - j,
    {
        if s[i + j] != pat[j] {
            assert(s@.subrange(i as int, i + pat@.len() as int)[j as int] != pat@[j as int]);
            return false;
        }
        j = j + 1;
    }
    assert(s@.subrange(i as int, i + pat@.len() as int) =~= pat@);
    true
}

/// Substring search.
pub fn contains_str(s: &str, pat: &str) -> (r: bool)
    ensures
        r == contains_seq(s@, pat@),
{
    let sv: Vec<char> = chars_of(s);
    let pv: Vec<char> = chars_of(pat);
    if pv.len() > sv.len() {
        return false;
    }
    let bound: usize = sv.len() - pv.len();
    let mut i: usize = 0;
    while i <= bound
        invariant
            sv@ == s@,
            pv@ == pat@,
            pv@.len() <= sv@.len(),
            bound == sv@.len() - pv@.len(),
            i <= bound + 1,
            forall|k: int|
                0 <= k < i ==> #[trigger] s@.subrange(k, k + pat@.len() as int) != pat@,
        decreases bound + 1 - i,
    {
        if matches_at(&sv, &pv, i) {
            return true;
        }
        if i == bound {
            return false;
        }
        i = i + 1;
    }
    false
}

/// `s` with every occurrence of `pat` replaced by `rep`, scanning left to
/// right without overlap.
pub open spec fn replace_seq(s: Seq<char>, pat: Seq<char>, rep: Seq<char>) -> Seq<char>
    decreases s.len(),
{
    if pat.len() == 0 || s.len() < pat.len() {
        s
    } else if s.subrange(0, pat.len() as int) == pat {
        rep + replace_seq(s.skip(pat.len() as int), pat, rep)
    } else {
        seq![s[0]] + replace_seq(s.skip(1), pat, rep)
    }
}

/// Substring replacement, leftmost first, without overlap; an empty pattern
/// replaces nothing.
pub fn replace_str(s: &str, pat: &str, rep: &str) -> (r: String)
    ensures
        r@ == replace_seq(s@, pat@, rep@),
{
    if pat.unicode_len() == 0 {
        return s.to_owned();
    }
    let sv: Vec<char> = chars_of(s);
    let pv: Vec<char> = chars_of(pat);
    let rv: Vec<char> = chars_of(rep);
    let mut out: Vec<char> = Vec::new();
    let mut i: usize = 0;
    proof {
        assert(s@.skip(0) =~= s@);
        assert(Seq::<char>::empty() + replace_seq(s@, pat@, rep@) =~= replace_seq(
            s@,
            pat@,
            rep@,
        ));
    }
    while i < sv.len()
        invariant
            sv@ == s@,
            pv@ == pat@,
            rv@ == rep@,
            pat@.len() > 0,
            i <= sv@.len(),
            replace_seq(s@, pat@, rep@) == out@ + replace_seq(s@.skip(i as int), pat@, rep@),
        decreases sv@.len() - i,
    {
        let ghost pre = out@;
        let remaining: usize = sv.len() - i;
        if pv.len() <= remaining && matches_at(&sv, &pv, i) {
            let mut j: usize = 0;
            while j < rv.len()
                invariant
                    rv@ == rep@,
                    j <= rv@.len(),
                    out@ == pre + rep@.take(j as int),
                decreases rv@.len() - j,
            {
                out.push(rv[j]);
                j = j + 1;
                assert(out@ =~= pre + rep@.take(j as int));
            }
            assert(rep@.take(rep@.len() as int) =~= rep@);
            proof {
                assert(s@.skip(i as int).subrange(0, pat@.len() as int) =~= s@.subrange(
                    i as int,
                    i + pat@.len() as int,
                ));
                assert(s@.skip(i as int).skip(pat@.len() as int) =~= s@.skip(
                    i + pat@.len() as int,
                ));
                assert((pre + rep@) + replace_seq(s@.skip(i + pat@.len() as int), pat@, rep@)
                    =~= pre + (rep@ + replace_seq(s@.skip(i + pat@.len() as int), pat@, rep@)));
            }
            i = i + pv.len();
        } else {
            out.push(sv[i]);
            proof {
                let tail = s@.skip(i as int);
                if tail.len() >= pat@.len() {
                    assert(tail.subrange(0, pat@.len() as int) =~= s@.subrange(
                        i as int,
                        i + pat@.len() as int,
                    ));
                }
                assert(tail.skip(1) =~= s@.skip(i + 1));
                assert(seq![tail[0]] + replace_seq(s@.skip(i + 1), pat@, rep@) =~= seq![s@[i as int]]
                    + replace_seq(s@.skip(i + 1), pat@, rep@));
                assert((pre + seq![s@[i as int]]) + replace_seq(s@.skip(i + 1), pat@, rep@)
                    =~= pre + (seq![s@[i as int]] + replace_seq(s@.skip(i + 1), pat@, rep@)));
                assert(pre.push(s@[i as int]) =~= pre + seq![s@[i as int]]);
            }
            i = i + 1;
        }
    }
    proof {
        assert(s@.skip(s@.len() as int) =~= Seq::<char>::empty());
        assert(out@ + Seq::<char>::empty() =~= out@);
    }
    string_from_chars(out)
}

/// The decimal digit character for `d`.
pub open spec fn dec_digit(d: int) -> char
    recommends
        0 <= d <= 9,
{
    ((48 + d) as u8) as char
}

/// The decimal rendering of a non-negative integer.
pub open spec fn dec_nat(n: int) -> Seq<char>
    recommends
        n >= 0,
    decreases n,
{
    if n < 10 {
        seq![dec_digit(n)]
    } else {
        dec_nat(n / 10).push(dec_digit(n % 10))
    }
}

/// The decimal rendering of an integer, with a leading minus sign when
/// negative.
pub open spec fn dec_int(n: int) -> Seq<char> {
    if n < 0 {
        seq!['-'] + dec_nat(-n)
    } else {
        dec_nat(n)
    }
}

/// Render a magnitude as decimal digits, most significant first.
pub fn dec_chars_u64(n: u64) -> (v: Vec<char>)
    ensures
        v@ == dec_nat(n as int),
{
    let mut digits: Vec<char> = Vec::new();
    let mut m: u64 = n;
    while m >= 10
        invariant
            dec_nat(n as int) == dec_nat(m as int) + digits@,
        decreases m,
    {
        let d: u64 = m % 10;
        let ghost pre = digits@;
        digits.insert(0, (48 + d) as u8 as char);
        proof {
            assert(digits@ =~= seq![dec_digit(m as int % 10)] + pre);
            assert(dec_nat(m as int) =~= dec_nat(m as int / 10) + seq![
                dec_digit(m as int % 10),
            ]);
            assert(dec_nat(m as int / 10) + digits@ =~= dec_nat(m as int) + pre);
        }
        m = m / 10;
    }
    let ghost pre = digits@;
    digits.insert(0, (48 + m) as u8 as char);
    proof {
        assert(dec_nat(m as int) =~= seq![dec_digit(m as int)]);
        assert(digits@ =~= dec_nat(m as int) + pre);
    }
    digits
}

/// Render a signed integer in decimal.
pub fn i64_to_dec(n: i64) -> (r: String)
    ensures
        r@ == dec_int(n as int),
{
    if n >= 0 {
        string_from_chars(dec_chars_u64(n as u64))
    } else {
        let m: u64 = if n == -9223372036854775808i64 {
            9223372036854775808u64
        } else {
            (-n) as u64
        };
        let mut digits: Vec<char> = dec_chars_u64(m);
        digits.insert(0, '-');
        proof {
            assert(digits@ =~= seq!['-'] + dec_nat(-(n as int)));
        }
        string_from_chars(digits)
    }
}

/// How a decimal parse can fail, mirroring the standard integer parser.
#[derive(Clone, Copy, Debug, PartialEq, Eq, Structural)]
pub enum NumParseErr {
    Empty,
    InvalidDigit,
    PosOverflow,
    NegOverflow,
}

/// Whether every character of `s` is a decimal digit.
pub open spec fn all_digits(s: Seq<char>) -> bool {
    forall|i: int| 0 <= i < s.len() ==> 48 <= (#[trigger] s[i]) as u32 <= 57
}

/// The value of a non-empty digit string.
pub open spec fn digits_val(s: Seq<char>) -> int
    decreases s.len(),
{
    if s.len() == 0 {
        0
    } else {
        digits_val(s.drop_last()) * 10 + (s.last() as u32 - 48)
    }
}

/// The result of parsing `s` as a signed 64-bit decimal integer, with the
/// standard parser's acceptance rules: an optional sign, then one or more
/// digits, rejected on overflow.
pub open spec fn parse_i64_spec(s: Seq<char>) -> Result<i64, NumParseErr> {
    if s.len() == 0 {
        Err(NumParseErr::Empty)
    } else {
        let neg = s[0] == '-';
        let ds = if s[0] == '-' || s[0] == '+' {
            s.skip(1)
        } else {
            s
        };
        if ds.len() == 0 || !all_digits(ds) {
            Err(NumParseErr::InvalidDigit)
        } else if !neg && digits_val(ds) > i64::MAX {
            Err(NumParseErr::PosOverflow)
        } else if neg && digits_val(ds) > 9223372036854775808 {
            Err(NumParseErr::NegOverflow)
        } else if neg {
            Ok((-digits_val(ds)) as i64)
        } else {
            Ok(digits_val(ds) as i64)
        }
    }
}

proof fn lemma_digits_val_nonneg(s: Seq<char>)
    requires
        all_digits(s),
    ensures
        digits_val(s) >= 0,
    decreases s.len(),
{
    if s.len() > 0 {
        assert(all_digits(s.drop_last())) by {
            assert(forall|i: int|
                0 <= i < s.drop_last().len() ==> s.drop_last()[i] == s[i]);
        }
        lemma_digits_val_nonneg(s.drop_last());
    }
}

proof fn lemma_digits_val_grows(s: Seq<char>, k: int)
    requires
        all_digits(s),
        0 <= k <= s.len(),
    ensures
        digits_val(s.take(k)) <= digits_val(s),
    decreases s.len() - k,
{
    if k < s.len() {
        lemma_digits_val_grows(s, k + 1);
        assert(s.take(k + 1).drop_last() =~= s.take(k));
        assert(all_digits(s.take(k))) by {
            assert(forall|i: int| 0 <= i < k ==> s.take(k)[i] == s[i]);
        }
        lemma_digits_val_nonneg(s.take(k));
    } else {
        assert(s.take(k) =~= s);
    }
}

/// Parse the characters of `v` as a signed 64-bit decimal integer.
pub fn parse_i64_chars(v: &Vec<char>) -> (r: Result<i64, NumParseErr>)
    ensures
        r == parse_i64_spec(v@),
{
    if v.len() == 0 {
        return Err(NumParseErr::Empty);
    }
    let first: char = v[0];
    let neg: bool = first == '-';
    let start: usize = if first == '-' || first == '+' {
        1
    } else {
        0
    };
    let ghost ds = v@.skip(start as int);
    proof {
        if start == 0 {
            assert(v@.skip(0) =~= v@);
        }
    }
    if v.len() == start {
        return Err(NumParseErr::InvalidDigit);
    }
    let limit: u64 = if neg {
        9223372036854775808u64
    } else {
        9223372036854775807u64
    };
    let mut i: usize = start;
    while i < v.len()
        invariant
            start <= i <= v@.len(),
            v@.len() > start,
            (start == 1) == (v@[0] == '-' || v@[0] == '+'),
            start <= 1,
            ds == v@.skip(start as int),
            start == 0 ==> ds == v@,
            forall|j: int| 0 <= j < i - start ==> 48 <= (#[trigger] ds[j]) as u32 <= 57,
        decreases v@.len() - i,
    {
        let c: char = v[i];
        let u: u32 = c as u32;
        if u < 48 || u > 57 {
            assert(!all_digits(ds)) by {
                assert(ds[i - start] == c);
                assert(!(48 <= ds[i - start] as u32 <= 57));
            }
            return Err(NumParseErr::InvalidDigit);
        }
        assert(ds[i - start] == c);
        i = i + 1;
    }
    assert(all_digits(ds));
    let mut acc: u64 = 0;
    let mut i: usize = start;
    while i < v.len()
        invariant
            start <= i <= v@.len(),
            start <= 1,
            v@.len() > start,
            (start == 1) == (v@[0] == '-' || v@[0] == '+'),
            neg == (v@[0] == '-'),
            ds == v@.skip(start as int),
            start == 0 ==> ds == v@,
            all_digits(ds),
            acc == digits_val(ds.take(i - start)),
            acc <= limit,
            limit == if neg {
                9223372036854775808u64
            } else {
                9223372036854775807u64
            },
        decreases v@.len() - i,
    {
        let c: char = v[i];
        let u: u32 = c as u32;
        assert(ds[i - start] == c);
        assert(48 <= u <= 57);
        let d: u64 = (u - 48) as u64;
        proof {
            assert(ds.take(i + 1 - start).drop_last() =~= ds.take(i - start));
            assert(ds.take(i + 1 - start).last() == c);
        }
        if acc > (limit - d) / 10 {
            proof {
                assert(acc * 10 + d > limit) by {
                    assert(acc >= (limit - d) / 10 + 1);
                    assert(((limit - d) / 10 + 1) * 10 == ((limit - d) / 10) * 10 + 10);
                    assert((limit - d) / 10 * 10 > limit - d - 10);
                }
                assert(digits_val(ds.take(i + 1 - start)) > limit);
                lemma_digits_val_grows(ds, i + 1 - start);
                assert(digits_val(ds) > limit);
            }
            if neg {
                return Err(NumParseErr::NegOverflow);
            } else {
                return Err(NumParseErr::PosOverflow);
            }
        }
        proof {
            assert(acc * 10 + d <= limit) by {
                assert(acc <= (limit - d) / 10);
                assert(acc * 10 <= (limit - d) / 10 * 10);
                assert((limit - d) / 10 * 10 <= limit - d);
            }
        }
        acc = acc * 10 + d;
        i = i + 1;
    }
    proof {
        assert(ds.take(v@.len() - start) =~= ds);
    }
    if neg {
        if acc == 9223372036854775808u64 {
            Ok(-9223372036854775808i64)
        } else {
            Ok(-(acc as i64))
        }
    } else {
        Ok(acc as i64)
    }
}

/// The standard library's message for each decimal-parse failure.
pub open spec fn parse_err_text(e: NumParseErr) -> Seq<char> {
    match e {
        NumParseErr::Empty => "cannot parse integer from empty string"@,
        NumParseErr::InvalidDigit => "invalid digit found in string"@,
        NumParseErr::PosOverflow => "number too large to fit in target type"@,
        NumParseErr::NegOverflow => "number too small to fit in target type"@,
    }
}

/// Render a decimal-parse failure as its standard message.
pub fn parse_err_message(e: NumParseErr) -> (r: String)
    ensures
        r@ == parse_err_text(e),
{
    match e {
        NumParseErr::Empty => "cannot parse integer from empty string".to_owned(),
        NumParseErr::InvalidDigit => "invalid digit found in string".to_owned(),
        NumParseErr::PosOverflow => "number too large to fit in target type".to_owned(),
        NumParseErr::NegOverflow => "number too small to fit in target type".to_owned(),
    }
}

/// Lexicographic order on character sequences, by code point.
pub open spec fn lex_cmp(a: Seq<char>, b: Seq<char>) -> core::cmp::Ordering
    decreases a.len(),
{
    if a.len() == 0 && b.len() == 0 {
        core::cmp::Ordering::Equal
    } else if a.len() == 0 {
        core::cmp::Ordering::Less
    } else if b.len() == 0 {
        core::cmp::Ordering::Greater
    } else if (a[0] as u32) < (b[0] as u32) {
        core::cmp::Ordering::Less
    } else if (a[0] as u32) > (b[0] as u32) {
        core::cmp::Ordering::Greater
    } else {
        lex_cmp(a.skip(1), b.skip(1))
    }
}

/// Compare two strings lexicographically by code point.
pub fn str_cmp(a: &str, b: &str) -> (r: core::cmp::Ordering)
    ensures
        r == lex_cmp(a@, b@),
{
    let na: usize = a.unicode_len();
    let nb: usize = b.unicode_len();
    let mut i: usize = 0;
    proof {
        assert(a@.skip(0) =~= a@);
        assert(b@.skip(0) =~= b@);
    }
    while i < na && i < nb
        invariant
            na == a@.len(),
            nb == b@.len(),
            i <= na,
            i <= nb,
            lex_cmp(a@, b@) == lex_cmp(a@.skip(i as int), b@.skip(i as int)),
        decreases na - i,
    {
        let ca: char = a.get_char(i);
        let cb: char = b.get_char(i);
        proof {
            assert(a@.skip(i as int)[0] == a@[i as int]);
            assert(b@.skip(i as int)[0] == b@[i as int]);
            assert(a@.skip(i as int).skip(1) =~= a@.skip(i + 1));
            assert(b@.skip(i as int).skip(1) =~= b@.skip(i + 1));
        }
        if (ca as u32) < (cb as u32) {
            return core::cmp::Ordering::Less;
        }
        if (ca as u32) > (cb as u32) {
            return core::cmp::Ordering::Greater;
        }
        i = i + 1;
    }
    proof {
        assert(a@.skip(na as int) =~= Seq::<char>::empty());
        assert(b@.skip(nb as int) =~= Seq::<char>::empty());
        if i < nb {
            assert(b@.skip(i as int).len() > 0);
        }
        if i < na {
            assert(a@.skip(i as int).len() > 0);
        }
    }
    if na == nb {
        core::cmp::Ordering::Equal
    } else if na < nb {
        core::cmp::Ordering::Less
    } else {
        core::cmp::Ordering::Greater
    }
}

/// The first position of `c` in `v`, if any.
pub fn find_char(v: &Vec<char>, c: char) -> (r: Option<usize>)
    ensures
        match r {
            Some(i) => i < v@.len() && v@[i as int] == c && forall|j: int|
                0 <= j < i ==> v@[j] != c,
            None => forall|j: int| 0 <= j < v@.len() ==> v@[j] != c,
        },
{
    let mut i: usize = 0;
    while i < v.len()
        invariant
            i <= v@.len(),
            forall|j: int| 0 <= j < i ==> v@[j] != c,
        decreases v@.len() - i,
    {
        if v[i] == c {
            return Some(i);
        }
        i = i + 1;
    }
    None
}

} // verus!
