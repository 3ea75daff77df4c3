//! Pure parsing of configuration strings: resolution strings of the form
//! `<width>x<height>`, fixed-point decimal numbers, comma-separated
//! 3-vectors, and the surface name.
//!
//! Each grammar is stated as a spec function over the character sequence,
//! and each parser returns exactly the value of that grammar, or a
//! [`ConfigError`] exactly when the string does not match it.  A digit
//! run is limited to nine digits, which keeps every parsed value inside
//! the fixed-point range.

use vstd::prelude::*;
use crate::fixed::FX_ONE;
use crate::vec::Vec3;
use crate::surfaces::{SurfaceType, HemisphericalDome, Wall};
use crate::errors::ConfigError;
use crate::WarpResolution;

verus! {

/// A decimal digit.
pub open spec fn is_digit_s(c: char) -> bool {
    '0' <= c && c <= '9'
}

/// The numeric value of a digit.
pub open spec fn digit_val_s(c: char) -> int {
    c as int - 48
}

/// Every character of the sequence is a digit.
pub open spec fn all_digits_s(s: Seq<char>) -> bool {
    forall|i: int| 0 <= i < s.len() ==> is_digit_s(#[trigger] s[i])
}

/// A digit run: one to nine digits.
pub open spec fn digits_ok_s(s: Seq<char>) -> bool {
    1 <= s.len() <= 9 && all_digits_s(s)
}

/// The value of a digit sequence, most significant first.
pub open spec fn digits_value_s(s: Seq<char>) -> int
    decreases s.len(),
{
    if s.len() == 0 {
        0
    } else {
        digits_value_s(s.drop_last()) * 10 + digit_val_s(s.last())
    }
}

/// The largest value of a digit run of the given length.
pub open spec fn digits_cap_s(k: int) -> int {
    if k <= 0 {
        0
    } else if k == 1 {
        9
    } else if k == 2 {
        99
    } else if k == 3 {
        999
    } else if k == 4 {
        9999
    } else if k == 5 {
        99999
    } else if k == 6 {
        999999
    } else if k == 7 {
        9999999
    } else if k == 8 {
        99999999
    } else {
        999999999
    }
}

/// Index of the first occurrence of `c` in `s`, or the length of `s`
/// when it does not occur.
pub open spec fn is_first_at_s(s: Seq<char>, c: char, i: int) -> bool {
    &&& 0 <= i <= s.len()
    &&& (i < s.len() ==> s[i] == c)
    &&& (forall|j: int| 0 <= j < i ==> s[j] != c)
}

/// The index of the first occurrence of `c`, or the length of `s`.
pub open spec fn first_at_s(s: Seq<char>, c: char) -> int {
    choose|i: int| is_first_at_s(s, c, i)
}

/// A witness pins `first_at_s` down.
pub proof fn lemma_first_at(s: Seq<char>, c: char, i: int)
    requires
        is_first_at_s(s, c, i),
    ensures
        first_at_s(s, c) == i,
{
    assert(exists|k: int| is_first_at_s(s, c, k)) by {
        assert(is_first_at_s(s, c, i));
    }
    let k = first_at_s(s, c);
    assert(is_first_at_s(s, c, k));
    if k < i {
        assert(s[k] == c);
        assert(s[k] != c);
    }
    if k > i {
        assert(s[i] == c);
        assert(s[i] != c);
    }
}

/// Find the first occurrence of `c` in `s[from..to]`, or `to`.
fn find_first(s: &str, c: char, from: usize, to: usize) -> (i: usize)
    requires
        from <= to <= s@.len(),
    ensures
        from <= i <= to,
        i < to ==> s@[i as int] == c,
        forall|j: int| from <= j < i ==> s@[j] != c,
{
    let mut i: usize = from;
    while i < to
        invariant
            from <= i <= to,
            to <= s@.len(),
            forall|j: int| from <= j < i ==> s@[j] != c,
        decreases to - i,
    {
        if s.get_char(i) == c {
            return i;
        }
        i = i + 1;
    }
    i
}

/// Parse the digit run `s[from..to]`: `None` exactly when it is not one
/// to nine digits; otherwise its value, which the length caps.
fn parse_digit_run(s: &str, from: usize, to: usize) -> (r: Option<i64>)
    requires
        from <= to <= s@.len(),
    ensures
        r is Some <==> digits_ok_s(s@.subrange(from as int, to as int)),
        r matches Some(v) ==> v as int == digits_value_s(s@.subrange(from as int, to as int)) && 0
            <= v as int <= digits_cap_s(to as int - from as int),
{
    let ghost sub: Seq<char> = s@.subrange(from as int, to as int);
    if to - from < 1 || to - from > 9 {
        return None;
    }
    let mut acc: i64 = 0;
    let mut i: usize = from;
    while i < to
        invariant
            from <= i <= to <= s@.len(),
            to - from <= 9,
            sub == s@.subrange(from as int, to as int),
            acc as int == digits_value_s(sub.take(i as int - from as int)),
            0 <= acc as int <= digits_cap_s(i as int - from as int),
            forall|j: int| 0 <= j < i as int - from as int ==> is_digit_s(#[trigger] sub[j]),
        decreases to - i,
    {
        let ch: char = s.get_char(i);
        if ch < '0' || ch > '9' {
            proof {
                assert(sub[i as int - from as int] == ch);
                assert(!is_digit_s(ch));
                assert(!all_digits_s(sub));
            }
            return None;
        }
        let d: i64 = (ch as u32 as i64) - 48;
        proof {
            let k: int = i as int - from as int;
            assert(sub.take(k + 1).drop_last() =~= sub.take(k));
            assert(sub.take(k + 1).last() == sub[k]);
            assert(sub[k] == ch);
            assert(1 <= digit_val_s(ch) + 48 - 48 <= 9 || digit_val_s(ch) == 0);
        }
        acc = acc * 10 + d;
        i = i + 1;
    }
    proof {
        assert(sub.take(to as int - from as int) =~= sub);
    }
    Some(acc)
}

/// The resolution grammar: digits, the letter x, digits — nothing else.
pub open spec fn resolution_ok_s(s: Seq<char>) -> bool {
    let k = first_at_s(s, 'x');
    k < s.len() && digits_ok_s(s.take(k)) && digits_ok_s(s.skip(k + 1))
}

/// The width of a well-formed resolution string.
pub open spec fn resolution_width_s(s: Seq<char>) -> int {
    digits_value_s(s.take(first_at_s(s, 'x')))
}

/// The height of a well-formed resolution string.
pub open spec fn resolution_height_s(s: Seq<char>) -> int {
    digits_value_s(s.skip(first_at_s(s, 'x') + 1))
}

impl WarpResolution {
    /// Parse a `<width>x<height>` string; fails exactly when the string
    /// is not two digit runs joined by the letter x.
    pub fn parse(input: &str) -> (r: Result<WarpResolution, ConfigError>)
        ensures
            r is Ok <==> resolution_ok_s(input@),
            r matches Ok(wr) ==> wr.width as int == resolution_width_s(input@) && wr.height as int
                == resolution_height_s(input@),
            r matches Err(e) ==> e == ConfigError::BadResolution,
    {
        let n: usize = input.unicode_len();
        let xi: usize = find_first(input, 'x', 0, n);
        proof {
            lemma_first_at(input@, 'x', xi as int);
        }
        if xi == n {
            return Err(ConfigError::BadResolution);
        }
        let width: i64 = match parse_digit_run(input, 0, xi) {
            Some(v) => v,
            None => {
                proof {
                    assert(input@.subrange(0, xi as int) =~= input@.take(xi as int));
                }
                return Err(ConfigError::BadResolution);
            },
        };
        let height: i64 = match parse_digit_run(input, xi + 1, n) {
            Some(v) => v,
            None => {
                proof {
                    assert(input@.subrange(xi as int + 1, n as int) =~= input@.skip(xi as int + 1));
                }
                return Err(ConfigError::BadResolution);
            },
        };
        proof {
            assert(input@.subrange(0, xi as int) =~= input@.take(xi as int));
            assert(input@.subrange(xi as int + 1, n as int) =~= input@.skip(xi as int + 1));
        }
        Ok(WarpResolution { width, height })
    }
}

/// The scale of a fractional digit run: 10^(9 - k) for k fractional
/// digits, so that the scaled value counts billionths.
pub open spec fn frac_shift_s(k: int) -> int {
    if k <= 0 {
        1_000_000_000
    } else if k == 1 {
        100_000_000
    } else if k == 2 {
        10_000_000
    } else if k == 3 {
        1_000_000
    } else if k == 4 {
        100_000
    } else if k == 5 {
        10_000
    } else if k == 6 {
        1_000
    } else if k == 7 {
        100
    } else if k == 8 {
        10
    } else {
        1
    }
}

/// The unsigned decimal grammar: a digit run, optionally followed by a
/// point and a second digit run.
pub open spec fn unsigned_dec_ok_s(s: Seq<char>) -> bool {
    let d = first_at_s(s, '.');
    if d == s.len() {
        digits_ok_s(s)
    } else {
        digits_ok_s(s.take(d)) && digits_ok_s(s.skip(d + 1))
    }
}

/// The fixed-point value of an unsigned decimal.
pub open spec fn unsigned_dec_value_s(s: Seq<char>) -> int {
    let d = first_at_s(s, '.');
    if d == s.len() {
        digits_value_s(s) * FX_ONE
    } else {
        digits_value_s(s.take(d)) * FX_ONE + digits_value_s(s.skip(d + 1)) * frac_shift_s(
            s.len() - d - 1,
        )
    }
}

/// The signed decimal grammar: an optional leading minus sign.
pub open spec fn dec_ok_s(s: Seq<char>) -> bool {
    if s.len() >= 1 && s[0] == '-' {
        unsigned_dec_ok_s(s.skip(1))
    } else {
        unsigned_dec_ok_s(s)
    }
}

/// The fixed-point value of a signed decimal.
pub open spec fn dec_value_s(s: Seq<char>) -> int {
    if s.len() >= 1 && s[0] == '-' {
        -unsigned_dec_value_s(s.skip(1))
    } else {
        unsigned_dec_value_s(s)
    }
}

/// Parse the unsigned decimal `s[from..to]` into a fixed-point value.
fn parse_unsigned_dec(s: &str, from: usize, to: usize) -> (r: Option<i64>)
    requires
        from <= to <= s@.len(),
    ensures
        r is Some <==> unsigned_dec_ok_s(s@.subrange(from as int, to as int)),
        r matches Some(v) ==> v as int == unsigned_dec_value_s(s@.subrange(from as int, to as int))
            && 0 <= v as int <= 1_000_000_000_000_000_000,
{
    let ghost sub: Seq<char> = s@.subrange(from as int, to as int);
    let di: usize = find_first(s, '.', from, to);
    proof {
        assert(forall|j: int|
            0 <= j < di as int - from as int ==> sub[j] == s@[from as int + j] && s@[from as int + j]
                != '.');
        if di < to {
            assert(sub[di as int - from as int] == '.');
        }
        assert(is_first_at_s(sub, '.', di as int - from as int));
        lemma_first_at(sub, '.', di as int - from as int);
    }
    if di == to {
        let v: i64 = match parse_digit_run(s, from, to) {
            Some(v) => v,
            None => {
                return None;
            },
        };
        proof {
            assert(0 <= v as int * (FX_ONE as int) <= 999_999_999_000_000_000) by (nonlinear_arith)
                requires
                    0 <= v as int <= 999_999_999,
            ;
        }
        return Some(v * FX_ONE);
    }
    let ip: i64 = match parse_digit_run(s, from, di) {
        Some(v) => v,
        None => {
            proof {
                assert(s@.subrange(from as int, di as int) =~= sub.take(di as int - from as int));
            }
            return None;
        },
    };
    let fp: i64 = match parse_digit_run(s, di + 1, to) {
        Some(v) => v,
        None => {
            proof {
                assert(s@.subrange(di as int + 1, to as int) =~= sub.skip(di as int - from as int
                    + 1));
            }
            return None;
        },
    };
    let flen: usize = to - (di + 1);
    let shift: i64 = if flen <= 1 {
        100_000_000
    } else if flen == 2 {
        10_000_000
    } else if flen == 3 {
        1_000_000
    } else if flen == 4 {
        100_000
    } else if flen == 5 {
        10_000
    } else if flen == 6 {
        1_000
    } else if flen == 7 {
        100
    } else if flen == 8 {
        10
    } else {
        1
    };
    proof {
        assert(s@.subrange(from as int, di as int) =~= sub.take(di as int - from as int));
        assert(s@.subrange(di as int + 1, to as int) =~= sub.skip(di as int - from as int + 1));
        assert(0 <= ip as int * (FX_ONE as int) <= 999_999_999_000_000_000) by (nonlinear_arith)
            requires
                0 <= ip as int <= 999_999_999,
        ;
        assert(0 <= fp as int * (shift as int) <= 999_999_999) by (nonlinear_arith)
            requires
                0 <= fp as int <= digits_cap_s(to as int - (di as int + 1)),
                shift as int == frac_shift_s(to as int - (di as int + 1)),
                1 <= to as int - (di as int + 1) <= 9,
        ;
    }
    Some(ip * FX_ONE + fp * shift)
}

/// Parse the signed decimal `s[from..to]` into a fixed-point value.
#[verifier::rlimit(100)]
fn parse_fixed_range(s: &str, from: usize, to: usize) -> (r: Option<i64>)
    requires
        from <= to <= s@.len(),
    ensures
        r is Some <==> dec_ok_s(s@.subrange(from as int, to as int)),
        r matches Some(v) ==> v as int == dec_value_s(s@.subrange(from as int, to as int)),
{
    let ghost sub: Seq<char> = s@.subrange(from as int, to as int);
    if from < to && s.get_char(from) == '-' {
        proof {
            assert(sub[0] == '-');
            assert(s@.subrange(from as int + 1, to as int) =~= sub.skip(1));
        }
        match parse_unsigned_dec(s, from + 1, to) {
            Some(v) => Some(-v),
            None => None,
        }
    } else {
        proof {
            if sub.len() >= 1 {
                assert(sub[0] == s@[from as int]);
            }
        }
        parse_unsigned_dec(s, from, to)
    }
}

/// Parse a decimal string into a fixed-point scalar; fails exactly when
/// the string is not an optionally signed decimal of at most nine digits
/// on each side of the point.
pub fn parse_fixed(input: &str) -> (r: Result<i64, ConfigError>)
    ensures
        r is Ok <==> dec_ok_s(input@),
        r matches Ok(v) ==> v as int == dec_value_s(input@),
        r matches Err(e) ==> e == ConfigError::BadVector,
{
    let n: usize = input.unicode_len();
    proof {
        assert(input@.subrange(0, n as int) =~= input@);
    }
    match parse_fixed_range(input, 0, n) {
        Some(v) => Ok(v),
        None => Err(ConfigError::BadVector),
    }
}

/// The 3-vector grammar: one to three comma-separated decimals; missing
/// components default to zero.
pub open spec fn vec3_ok_s(s: Seq<char>) -> bool {
    let c1 = first_at_s(s, ',');
    if c1 == s.len() {
        dec_ok_s(s)
    } else {
        let r1 = s.skip(c1 + 1);
        let c2 = first_at_s(r1, ',');
        if c2 == r1.len() {
            dec_ok_s(s.take(c1)) && dec_ok_s(r1)
        } else {
            dec_ok_s(s.take(c1)) && dec_ok_s(r1.take(c2)) && dec_ok_s(r1.skip(c2 + 1))
                && first_at_s(r1.skip(c2 + 1), ',') == r1.skip(c2 + 1).len()
        }
    }
}

/// The components of a well-formed 3-vector string.
pub open spec fn vec3_value_s(s: Seq<char>) -> (int, int, int) {
    let c1 = first_at_s(s, ',');
    if c1 == s.len() {
        (dec_value_s(s), 0, 0)
    } else {
        let r1 = s.skip(c1 + 1);
        let c2 = first_at_s(r1, ',');
        if c2 == r1.len() {
            (dec_value_s(s.take(c1)), dec_value_s(r1), 0)
        } else {
            (dec_value_s(s.take(c1)), dec_value_s(r1.take(c2)), dec_value_s(r1.skip(c2 + 1)))
        }
    }
}

/// Parse an eye-position string of up to three comma-separated decimals
/// into a vector, missing components zero; fails exactly when a
/// component is malformed or a fourth component appears.
pub fn parse_vec3(input: &str) -> (r: Result<Vec3, ConfigError>)
    ensures
        r is Ok <==> vec3_ok_s(input@),
        r matches Ok(v) ==> v@.x == vec3_value_s(input@).0 && v@.y == vec3_value_s(input@).1 && v@.z
            == vec3_value_s(input@).2,
        r matches Err(e) ==> e == ConfigError::BadVector,
{
    let n: usize = input.unicode_len();
    let c1: usize = find_first(input, ',', 0, n);
    proof {
        lemma_first_at(input@, ',', c1 as int);
    }
    if c1 == n {
        proof {
            assert(input@.subrange(0, n as int) =~= input@);
        }
        let x: i64 = match parse_fixed_range(input, 0, n) {
            Some(v) => v,
            None => {
                return Err(ConfigError::BadVector);
            },
        };
        return Ok(Vec3 { x, y: 0, z: 0 });
    }
    let ghost r1: Seq<char> = input@.skip(c1 as int + 1);
    let c2: usize = find_first(input, ',', c1 + 1, n);
    proof {
        assert(forall|j: int|
            0 <= j < c2 as int - (c1 as int + 1) ==> r1[j] == input@[c1 as int + 1 + j] && input@[
                c1 as int + 1 + j] != ',');
        if c2 < n {
            assert(r1[c2 as int - (c1 as int + 1)] == ',');
        }
        assert(is_first_at_s(r1, ',', c2 as int - (c1 as int + 1)));
        lemma_first_at(r1, ',', c2 as int - (c1 as int + 1));
        assert(input@.subrange(0, c1 as int) =~= input@.take(c1 as int));
    }
    let x: i64 = match parse_fixed_range(input, 0, c1) {
        Some(v) => v,
        None => {
            return Err(ConfigError::BadVector);
        },
    };
    if c2 == n {
        proof {
            assert(input@.subrange(c1 as int + 1, n as int) =~= r1);
        }
        let y: i64 = match parse_fixed_range(input, c1 + 1, n) {
            Some(v) => v,
            None => {
                return Err(ConfigError::BadVector);
            },
        };
        return Ok(Vec3 { x, y, z: 0 });
    }
    let ghost r2: Seq<char> = r1.skip(c2 as int - (c1 as int + 1) + 1);
    let c3: usize = find_first(input, ',', c2 + 1, n);
    proof {
        assert(r2 =~= input@.skip(c2 as int + 1));
        assert(forall|j: int|
            0 <= j < c3 as int - (c2 as int + 1) ==> r2[j] == input@[c2 as int + 1 + j] && input@[
                c2 as int + 1 + j] != ',');
        if c3 < n {
            assert(r2[c3 as int - (c2 as int + 1)] == ',');
        }
        assert(is_first_at_s(r2, ',', c3 as int - (c2 as int + 1)));
        lemma_first_at(r2, ',', c3 as int - (c2 as int + 1));
        assert(input@.subrange(c1 as int + 1, c2 as int) =~= r1.take(c2 as int - (c1 as int + 1)));
        assert(input@.subrange(c2 as int + 1, n as int) =~= r2);
    }
    if c3 < n {
        return Err(ConfigError::BadVector);
    }
    let y: i64 = match parse_fixed_range(input, c1 + 1, c2) {
        Some(v) => v,
        None => {
            return Err(ConfigError::BadVector);
        },
    };
    let z: i64 = match parse_fixed_range(input, c2 + 1, n) {
        Some(v) => v,
        None => {
            return Err(ConfigError::BadVector);
        },
    };
    Ok(Vec3 { x, y, z })
}

/// Compare two strings character by character.
pub fn str_equal(a: &str, b: &str) -> (r: bool)
    ensures
        r <==> a@ == b@,
{
    let na: usize = a.unicode_len();
    let nb: usize = b.unicode_len();
    if na != nb {
        return false;
    }
    let mut i: usize = 0;
    while i < na
        invariant
            0 <= i <= na,
            na == a@.len(),
            na == b@.len(),
            forall|j: int| 0 <= j < i ==> a@[j] == b@[j],
        decreases na - i,
    {
        if a.get_char(i) != b.get_char(i) {
            return false;
        }
        i = i + 1;
    }
    proof {
        assert(a@ =~= b@);
    }
    true
}

/// Choose the projection surface from its configured name; the radius is
/// used by the dome variant.  Fails exactly when the name is neither
/// `dome` nor `wall`.
pub fn surface_type(surface: &str, radius: i64) -> (r: Result<SurfaceType, ConfigError>)
    ensures
        r is Ok <==> surface@ == "dome"@ || surface@ == "wall"@,
        surface@ == "dome"@ ==> r == Ok::<SurfaceType, ConfigError>(
            SurfaceType::HemisphericalDome(HemisphericalDome { radius }),
        ),
        surface@ == "wall"@ ==> r == Ok::<SurfaceType, ConfigError>(SurfaceType::Wall(Wall {  })),
        r matches Err(e) ==> e == ConfigError::BadSurface,
{
    proof {
        assert("dome"@ != "wall"@) by {
            reveal_strlit("dome");
            reveal_strlit("wall");
            assert("dome"@.len() == 4);
            assert("wall"@.len() == 4);
            assert("dome"@[0] == 'd');
            assert("wall"@[0] == 'w');
        }
    }
    if str_equal(surface, "dome") {
        Ok(SurfaceType::HemisphericalDome(HemisphericalDome { radius }))
    } else if str_equal(surface, "wall") {
        Ok(SurfaceType::Wall(Wall {  }))
    } else {
        Err(ConfigError::BadSurface)
    }
}

} // verus!
