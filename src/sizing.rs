//! The `size` parameter and the aspect-preserving target dimensions.
use vstd::prelude::*;
use vstd::string::StrSliceExecFns;
use crate::error::TransformError;

verus! {

/// A positive target width, held exactly as the fraction
/// `numerator / denominator`.
#[derive(Clone, Copy, Debug, PartialEq, Eq, Structural)]
pub struct TargetWidth {
    pub numerator: u64,
    pub denominator: u64,
}

/// What has been read of a decimal numeral so far.
pub struct Scan {
    pub num: nat,
    pub den: nat,
    pub dot: bool,
    pub valid: bool,
    pub digits: nat,
}

pub open spec fn is_digit(c: char) -> bool {
    '0' <= c && c <= '9'
}

/// Reads the character `c`; `first` tells whether it opens the numeral.
pub open spec fn scan_step(st: Scan, c: char, first: bool) -> Scan {
    if is_digit(c) {
        Scan {
            num: st.num * 10 + ((c as int) - 48) as nat,
            den: if st.dot { st.den * 10 } else { st.den },
            digits: st.digits + 1,
            ..st
        }
    } else if c == '.' && !st.dot {
        Scan { dot: true, ..st }
    } else if c == '+' && first {
        st
    } else {
        Scan { valid: false, ..st }
    }
}

/// Reads `s` from left to right: an optional leading `+`, then digits with
/// at most one decimal point.
pub open spec fn scan(s: Seq<char>) -> Scan
    decreases s.len(),
{
    if s.len() == 0 {
        Scan { num: 0, den: 1, dot: false, valid: true, digits: 0 }
    } else {
        scan_step(scan(s.drop_last()), s.last(), s.len() == 1)
    }
}

/// The value of the decimal numeral `s` (such as `400`, `+400` or `12.5`) as the
/// fraction (numerator, denominator), the denominator a power of ten; `None`
/// when `s` is not such a numeral.
pub open spec fn decimal_value(s: Seq<char>) -> Option<(nat, nat)> {
    let st = scan(s);
    if st.valid && st.digits > 0 {
        Some((st.num, st.den))
    } else {
        None
    }
}

/// The result of reading the `size` parameter `s`.
///
/// A width is a count of pixels, written in plain decimal notation; text in
/// any other notation (a sign other than a leading `+`, an exponent such as
/// `4e2`, `inf`, `NaN`) is not taken as a width and is an invalid request.
/// The width is kept exactly, as a fraction of two `u64`, so that the height
/// is the exact floor of `h * width / w`; a numeral whose digits, read as
/// one integer, exceed `u64::MAX`, or that has more than 19 digits after the
/// point, is refused as an invalid target dimension rather than rounded, as
/// is a zero width.
pub open spec fn size_outcome(s: Seq<char>) -> Result<TargetWidth, TransformError> {
    match decimal_value(s) {
        None => Err(TransformError::InvalidRequest),
        Some((n, d)) => if n == 0 || n > u64::MAX || d > u64::MAX {
            Err(TransformError::Resize)
        } else {
            Ok(TargetWidth { numerator: n as u64, denominator: d as u64 })
        },
    }
}

/// Reads the `size` parameter as an exact decimal target width.
pub fn parse_target_width(text: &str) -> (r: Result<TargetWidth, TransformError>)
    ensures
        r == size_outcome(text@),
{
    let len = text.unicode_len();
    let mut num: u64 = 0;
    let mut den: u64 = 1;
    let mut dot = false;
    let mut valid = true;
    let mut seen_digit = false;
    let mut overflow = false;
    let mut i: usize = 0;
    while i < len
        invariant
            len == text@.len(),
            i <= len,
            dot == scan(text@.take(i as int)).dot,
            valid == scan(text@.take(i as int)).valid,
            seen_digit == (scan(text@.take(i as int)).digits > 0),
            overflow == (scan(text@.take(i as int)).num > u64::MAX || scan(
                text@.take(i as int),
            ).den > u64::MAX),
            !overflow ==> num == scan(text@.take(i as int)).num && den == scan(
                text@.take(i as int),
            ).den,
        decreases len - i,
    {
        let c = text.get_char(i);
        proof {
            assert(text@.take(i + 1).drop_last() =~= text@.take(i as int));
            assert(text@.take(i + 1).last() == c);
        }
        if '0' <= c && c <= '9' {
            seen_digit = true;
            let d = (c as u32 - 48) as u64;
            if !overflow {
                let n2: u128 = num as u128 * 10 + d as u128;
                let d2: u128 = if dot { den as u128 * 10 } else { den as u128 };
                if n2 > u64::MAX as u128 || d2 > u64::MAX as u128 {
                    overflow = true;
                } else {
                    num = n2 as u64;
                    den = d2 as u64;
                }
            }
        } else if c == '.' && !dot {
            dot = true;
        } else if c == '+' && i == 0 {
        } else {
            valid = false;
        }
        i += 1;
    }
    proof {
        assert(text@.take(len as int) =~= text@);
    }
    if !valid || !seen_digit {
        Err(TransformError::InvalidRequest)
    } else if overflow || num == 0 {
        Err(TransformError::Resize)
    } else {
        Ok(TargetWidth { numerator: num, denominator: den })
    }
}

/// The dimensions a `w` × `h` image takes for the target width `t`: the
/// width is `floor(t)` and the height `floor(h * t / w)`, so that the aspect
/// ratio is kept.
pub open spec fn target_dims(w: nat, h: nat, t: TargetWidth) -> (nat, nat) {
    (
        t.numerator as nat / t.denominator as nat,
        ((h * t.numerator) / (w * t.denominator)) as nat,
    )
}

/// A resize of a `w` × `h` image to the target width `t` is possible: the
/// source is not empty, and the target is neither empty nor too large.
pub open spec fn resize_possible(w: nat, h: nat, t: TargetWidth) -> bool {
    let (nw, nh) = target_dims(w, h, t);
    &&& w > 0
    &&& t.denominator > 0
    &&& nw > 0
    &&& nh > 0
    &&& nw <= u32::MAX
    &&& nh <= u32::MAX
    &&& nw * nh * 4 <= usize::MAX
}

proof fn lemma_product_fits(a: int, b: int)
    requires
        0 <= a <= u32::MAX,
        0 <= b <= u64::MAX,
    ensures
        0 <= a * b <= u32::MAX * u64::MAX,
{
    assert(0 <= a * b <= u32::MAX * u64::MAX) by (nonlinear_arith)
        requires
            0 <= a <= u32::MAX,
            0 <= b <= u64::MAX,
    ;
}

/// Computes the target dimensions of a `width` × `height` image.
pub fn resized_dimensions(width: u32, height: u32, target: TargetWidth) -> (r: Result<
    (u32, u32),
    TransformError,
>)
    ensures
        r is Ok <==> resize_possible(width as nat, height as nat, target),
        r matches Ok((nw, nh)) ==> (nw as nat, nh as nat) == target_dims(
            width as nat,
            height as nat,
            target,
        ),
        r is Err ==> r == Err::<(u32, u32), TransformError>(TransformError::Resize),
{
    if width == 0 || target.denominator == 0 {
        return Err(TransformError::Resize);
    }
    let nw: u64 = target.numerator / target.denominator;
    proof {
        lemma_product_fits(height as int, target.numerator as int);
        lemma_product_fits(width as int, target.denominator as int);
    }
    let top: u128 = height as u128 * target.numerator as u128;
    let bottom: u128 = width as u128 * target.denominator as u128;
    assert(top == height as int * target.numerator as int);
    assert(bottom == width as int * target.denominator as int);
    assert(bottom > 0) by (nonlinear_arith)
        requires
            bottom == width as int * target.denominator as int,
            width > 0,
            target.denominator > 0,
    ;
    let nh: u128 = top / bottom;
    if nw == 0 || nh == 0 || nw > u32::MAX as u64 || nh > u32::MAX as u128 {
        return Err(TransformError::Resize);
    }
    proof {
        lemma_product_fits(nw as int, nh as int);
    }
    let area: u128 = nw as u128 * nh as u128 * 4;
    if area > usize::MAX as u128 {
        return Err(TransformError::Resize);
    }
    Ok((nw as u32, nh as u32))
}

} // verus!
