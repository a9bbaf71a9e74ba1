//! The price feed client's computation: normalizing a quote payload.
//!
//! The quote service answers a GET with a JSON object in which the
//! `"bitcoin"` key holds an object whose `"usd"` field is the spot price in
//! dollars as a decimal number.  This module checks the HTTP status and
//! extracts that nested number from the raw payload bytes — the `"usd"` key
//! must stand inside the `"bitcoin"` object, and a payload without that
//! shape is malformed — converting it to integer cents by truncation (not
//! rounding): the third and later fractional digits are dropped, which
//! biases the threshold check slightly toward "no trigger".

use vstd::prelude::*;
use vstd::string::StringExecFns;

verus! {

/// Failure of a price fetch.
#[derive(Debug, Clone, PartialEq, Eq)]
pub enum FeedError {
    /// The transport failed before any response arrived.
    Network { reason: String },
    /// The service answered with a status other than 200.
    BadStatus { status: u64 },
    /// The payload carries no price this client can read, or one too large
    /// to represent.
    MalformedPayload,
}

/// The reason text of a fetch failure.
pub open spec fn spec_feed_reason(e: FeedError) -> Seq<char> {
    match e {
        FeedError::Network { reason } => "network: "@ + reason@,
        FeedError::BadStatus { status } => "http status "@ + crate::text::dec_of(status as nat),
        FeedError::MalformedPayload => "malformed payload"@,
    }
}

impl FeedError {
    /// Renders this failure as its reason text.
    pub fn reason_text(&self) -> (r: String)
        ensures
            r@ == spec_feed_reason(*self),
    {
        match self {
            FeedError::Network { reason } => {
                let mut m = String::from_str("network: ");
                m.append(reason.as_str());
                proof {
                    assert(m@ =~= spec_feed_reason(*self));
                }
                m
            },
            FeedError::BadStatus { status } => {
                let mut m = String::from_str("http status ");
                let d = crate::text::u64_to_dec(*status);
                m.append(d.as_str());
                proof {
                    assert(m@ =~= spec_feed_reason(*self));
                }
                m
            },
            FeedError::MalformedPayload => String::from_str("malformed payload"),
        }
    }
}

/// JSON whitespace.
pub open spec fn is_ws(b: u8) -> bool {
    b == 32 || b == 9 || b == 10 || b == 13
}

/// An ASCII decimal digit.
pub open spec fn is_digit(b: u8) -> bool {
    48 <= b <= 57
}

/// The five bytes of the quoted key `"usd"`.
pub open spec fn usd_key() -> Seq<u8> {
    seq![34u8, 117u8, 115u8, 100u8, 34u8]
}

/// Whether the quoted `"usd"` key stands at position `i`.
pub open spec fn usd_key_at(s: Seq<u8>, i: int) -> bool {
    0 <= i && i + 5 <= s.len() && s.subrange(i, i + 5) =~= usd_key()
}

/// Position right after the first occurrence of the quoted `"usd"` key at or
/// after `i`, if any.
pub open spec fn find_usd(s: Seq<u8>, i: int) -> Option<int>
    decreases s.len() - i when 0 <= i <= s.len()
{
    if i + 5 > s.len() {
        None
    } else if usd_key_at(s, i) {
        Some(i + 5)
    } else {
        find_usd(s, i + 1)
    }
}

/// The nine bytes of the quoted key `"bitcoin"`.
pub open spec fn btc_key() -> Seq<u8> {
    seq![34u8, 98u8, 105u8, 116u8, 99u8, 111u8, 105u8, 110u8, 34u8]
}

/// Whether the quoted `"bitcoin"` key stands at position `i`.
pub open spec fn btc_key_at(s: Seq<u8>, i: int) -> bool {
    0 <= i && i + 9 <= s.len() && s.subrange(i, i + 9) =~= btc_key()
}

/// Position right after the first occurrence of the quoted `"bitcoin"` key
/// at or after `i`, if any.
pub open spec fn find_btc(s: Seq<u8>, i: int) -> Option<int>
    decreases s.len() - i when 0 <= i <= s.len()
{
    if i + 9 > s.len() {
        None
    } else if btc_key_at(s, i) {
        Some(i + 9)
    } else {
        find_btc(s, i + 1)
    }
}

/// First position at or after `i` that holds a closing brace, or the length
/// when there is none.
pub open spec fn brace_end(s: Seq<u8>, i: int) -> int
    decreases s.len() - i when 0 <= i <= s.len()
{
    if i < s.len() && s[i] != 125 {
        brace_end(s, i + 1)
    } else {
        i
    }
}

/// First position at or after `i` that holds no whitespace.
pub open spec fn skip_ws(s: Seq<u8>, i: int) -> int
    decreases s.len() - i when 0 <= i <= s.len()
{
    if i < s.len() && is_ws(s[i]) {
        skip_ws(s, i + 1)
    } else {
        i
    }
}

/// First position at or after `i` that holds no digit.
pub open spec fn digits_end(s: Seq<u8>, i: int) -> int
    decreases s.len() - i when 0 <= i <= s.len()
{
    if i < s.len() && is_digit(s[i]) {
        digits_end(s, i + 1)
    } else {
        i
    }
}

/// Value of the decimal digit run `s[i..j]`.
pub open spec fn dec_val(s: Seq<u8>, i: int, j: int) -> nat
    decreases j - i when 0 <= i <= j <= s.len()
{
    if j <= i {
        0
    } else {
        dec_val(s, i, j - 1) * 10 + (s[j - 1] - 48) as nat
    }
}

/// Whole cents carried by the fraction digit run `s[i..j]` (`j > i`): only
/// the first two fractional digits count, by truncation.
pub open spec fn frac_cents(s: Seq<u8>, i: int, j: int) -> nat {
    if j == i + 1 {
        ((s[i] - 48) * 10) as nat
    } else {
        dec_val(s, i, i + 2)
    }
}

/// Whether an exponent marker (`e` or `E`) stands at position `i`: a JSON
/// number may carry one, and this client does not scale by it, so a number
/// followed by one is rejected rather than silently mis-read.
pub open spec fn exp_at(s: Seq<u8>, i: int) -> bool {
    i < s.len() && (s[i] == 101 || s[i] == 69)
}

/// The price in integer cents that a quote payload carries.  The payload
/// must open (after whitespace) with a brace and hold the quoted
/// `"bitcoin"` key, a colon, and an opening brace with a matching close;
/// the first `"usd"` key of the payload after that brace must stand before
/// the object's closing brace, and its colon must be followed by a plain
/// decimal number (digits, optionally a point and at least one more digit,
/// no exponent).  The result is that number times one hundred, truncated to
/// whole cents; `None` when the payload has no such shape.  This is a
/// byte-level shape check, not a full JSON validator.
pub open spec fn spec_price_cents(s: Seq<u8>) -> Option<nat> {
    if !(skip_ws(s, 0) < s.len() && s[skip_ws(s, 0)] == 123) {
        None
    } else {
        spec_price_cents_body(s)
    }
}

/// The object part of `spec_price_cents`, after the payload's opening brace
/// was seen.
pub open spec fn spec_price_cents_body(s: Seq<u8>) -> Option<nat> {
    match find_btc(s, 0) {
        None => None,
        Some(b) => {
            let c1 = skip_ws(s, b);
            if c1 < s.len() && s[c1] == 58 {
                let o = skip_ws(s, c1 + 1);
                if o < s.len() && s[o] == 123 {
                    let close = brace_end(s, o + 1);
                    if close < s.len() {
                        match find_usd(s, o + 1) {
                            None => None,
                            Some(u) => {
                                if u <= close {
                                    spec_usd_value_cents(s, u)
                                } else {
                                    None
                                }
                            },
                        }
                    } else {
                        None
                    }
                } else {
                    None
                }
            } else {
                None
            }
        },
    }
}

/// The cents value of the number that follows a `"usd"` key ending at `k`:
/// a colon, then digits, optionally a point and at least one more digit,
/// and no exponent marker after the digits.
pub open spec fn spec_usd_value_cents(s: Seq<u8>, k: int) -> Option<nat> {
    let c = skip_ws(s, k);
    if c < s.len() && s[c] == 58 {
        let n0 = skip_ws(s, c + 1);
        let n1 = digits_end(s, n0);
        if n1 > n0 {
            if n1 < s.len() && s[n1] == 46 {
                let f1 = digits_end(s, n1 + 1);
                if f1 > n1 + 1 && !exp_at(s, f1) {
                    Some(dec_val(s, n0, n1) * 100 + frac_cents(s, n1 + 1, f1))
                } else {
                    None
                }
            } else if exp_at(s, n1) {
                None
            } else {
                Some(dec_val(s, n0, n1) * 100)
            }
        } else {
            None
        }
    } else {
        None
    }
}

/// Scans for the quoted `"usd"` key at or after `from`, returning the
/// position right after it.
fn find_usd_exec(body: &Vec<u8>, from: usize) -> (r: Option<usize>)
    requires
        from <= body@.len(),
    ensures
        match r {
            Some(k) => find_usd(body@, from as int) == Some(k as int) && k <= body@.len(),
            None => find_usd(body@, from as int) is None,
        },
{
    let n = body.len();
    let mut i: usize = from;
    loop
        invariant
            from <= i <= n,
            n == body@.len(),
            find_usd(body@, from as int) == find_usd(body@, i as int),
        decreases n - i,
    {
        if n - i < 5 {
            proof {
                assert(find_usd(body@, i as int) is None);
            }
            return None;
        }
        if body[i] == 34 && body[i + 1] == 117 && body[i + 2] == 115 && body[i + 3] == 100 && body[i
            + 4] == 34 {
            proof {
                assert(body@.subrange(i as int, i as int + 5) =~= usd_key());
                assert(usd_key_at(body@, i as int));
                assert(find_usd(body@, i as int) == Some(i as int + 5));
            }
            return Some(i + 5);
        }
        proof {
            assert(!usd_key_at(body@, i as int)) by {
                if usd_key_at(body@, i as int) {
                    assert(body@.subrange(i as int, i as int + 5)[0] == body@[i as int]);
                    assert(body@.subrange(i as int, i as int + 5)[1] == body@[i as int + 1]);
                    assert(body@.subrange(i as int, i as int + 5)[2] == body@[i as int + 2]);
                    assert(body@.subrange(i as int, i as int + 5)[3] == body@[i as int + 3]);
                    assert(body@.subrange(i as int, i as int + 5)[4] == body@[i as int + 4]);
                }
            }
        }
        i = i + 1;
    }
}

/// Scans for the quoted `"bitcoin"` key, returning the position right after
/// it.
fn find_btc_exec(body: &Vec<u8>) -> (r: Option<usize>)
    ensures
        match r {
            Some(k) => find_btc(body@, 0) == Some(k as int) && k <= body@.len(),
            None => find_btc(body@, 0) is None,
        },
{
    let n = body.len();
    let mut i: usize = 0;
    loop
        invariant
            i <= n,
            n == body@.len(),
            find_btc(body@, 0) == find_btc(body@, i as int),
        decreases n - i,
    {
        if n - i < 9 {
            proof {
                assert(find_btc(body@, i as int) is None);
            }
            return None;
        }
        if body[i] == 34 && body[i + 1] == 98 && body[i + 2] == 105 && body[i + 3] == 116 && body[i
            + 4] == 99 && body[i + 5] == 111 && body[i + 6] == 105 && body[i + 7] == 110 && body[i
            + 8] == 34 {
            proof {
                assert(body@.subrange(i as int, i as int + 9) =~= btc_key());
                assert(btc_key_at(body@, i as int));
                assert(find_btc(body@, i as int) == Some(i as int + 9));
            }
            return Some(i + 9);
        }
        proof {
            assert(!btc_key_at(body@, i as int)) by {
                if btc_key_at(body@, i as int) {
                    assert(body@.subrange(i as int, i as int + 9)[0] == body@[i as int]);
                    assert(body@.subrange(i as int, i as int + 9)[1] == body@[i as int + 1]);
                    assert(body@.subrange(i as int, i as int + 9)[2] == body@[i as int + 2]);
                    assert(body@.subrange(i as int, i as int + 9)[3] == body@[i as int + 3]);
                    assert(body@.subrange(i as int, i as int + 9)[4] == body@[i as int + 4]);
                    assert(body@.subrange(i as int, i as int + 9)[5] == body@[i as int + 5]);
                    assert(body@.subrange(i as int, i as int + 9)[6] == body@[i as int + 6]);
                    assert(body@.subrange(i as int, i as int + 9)[7] == body@[i as int + 7]);
                    assert(body@.subrange(i as int, i as int + 9)[8] == body@[i as int + 8]);
                }
            }
        }
        i = i + 1;
    }
}

/// Advances to the first closing brace at or after `from`.
fn brace_end_exec(body: &Vec<u8>, from: usize) -> (r: usize)
    requires
        from <= body@.len(),
    ensures
        r == brace_end(body@, from as int),
        from <= r <= body@.len(),
{
    let n = body.len();
    let mut i: usize = from;
    loop
        invariant
            from <= i <= n,
            n == body@.len(),
            brace_end(body@, from as int) == brace_end(body@, i as int),
        decreases n - i,
    {
        if i < n {
            if body[i] != 125 {
                i = i + 1;
                continue ;
            }
        }
        return i;
    }
}

/// Advances past whitespace.
fn skip_ws_exec(body: &Vec<u8>, from: usize) -> (r: usize)
    requires
        from <= body@.len(),
    ensures
        r == skip_ws(body@, from as int),
        from <= r <= body@.len(),
{
    let n = body.len();
    let mut i: usize = from;
    loop
        invariant
            from <= i <= n,
            n == body@.len(),
            skip_ws(body@, from as int) == skip_ws(body@, i as int),
        decreases n - i,
    {
        if i < n {
            let b = body[i];
            if b == 32 || b == 9 || b == 10 || b == 13 {
                i = i + 1;
                continue ;
            }
        }
        return i;
    }
}

/// Advances to the first non-digit at or after `from`.
fn digits_end_exec(body: &Vec<u8>, from: usize) -> (r: usize)
    requires
        from <= body@.len(),
    ensures
        r == digits_end(body@, from as int),
        from <= r <= body@.len(),
{
    let n = body.len();
    let mut i: usize = from;
    loop
        invariant
            from <= i <= n,
            n == body@.len(),
            digits_end(body@, from as int) == digits_end(body@, i as int),
        decreases n - i,
    {
        if i < n {
            let b = body[i];
            if 48 <= b && b <= 57 {
                i = i + 1;
                continue ;
            }
        }
        return i;
    }
}

/// Reads a digit run, returning its end and its value capped just above
/// `u64::MAX` — once the run's value cannot fit a u64, the cap is returned
/// instead.
fn read_digits(body: &Vec<u8>, from: usize) -> (r: (usize, u128))
    requires
        from <= body@.len(),
    ensures
        r.0 == digits_end(body@, from as int),
        from <= r.0 <= body@.len(),
        dec_val(body@, from as int, r.0 as int) <= u64::MAX ==> r.1 == dec_val(
            body@,
            from as int,
            r.0 as int,
        ),
        dec_val(body@, from as int, r.0 as int) > u64::MAX ==> r.1 == u64::MAX as u128 + 1,
{
    let n = body.len();
    let cap: u128 = u64::MAX as u128 + 1;
    let mut i: usize = from;
    let mut acc: u128 = 0;
    loop
        invariant
            from <= i <= n,
            n == body@.len(),
            cap == u64::MAX as u128 + 1,
            digits_end(body@, from as int) == digits_end(body@, i as int),
            forall|k: int| from <= k < i ==> is_digit(body@[k]),
            acc <= u64::MAX as u128 + 1,
            dec_val(body@, from as int, i as int) <= u64::MAX ==> acc == dec_val(
                body@,
                from as int,
                i as int,
            ),
            dec_val(body@, from as int, i as int) > u64::MAX ==> acc == u64::MAX as u128 + 1,
        decreases n - i,
    {
        if i < n {
            let b = body[i];
            if 48 <= b && b <= 57 {
                let ghost prev_val = dec_val(body@, from as int, i as int);
                let d: u128 = (b - 48) as u128;
                let t: u128 = acc * 10 + d;
                proof {
                    assert(dec_val(body@, from as int, i as int + 1) == prev_val * 10 + (body@[i
                        as int] - 48) as nat);
                    if prev_val <= u64::MAX {
                        assert(acc == prev_val);
                        assert(t == prev_val * 10 + (body@[i as int] - 48));
                    } else {
                        assert(acc == u64::MAX as u128 + 1);
                        assert(prev_val * 10 >= prev_val) by (nonlinear_arith)
                            requires
                                prev_val >= 0,
                        ;
                        assert(dec_val(body@, from as int, i as int + 1) > u64::MAX);
                        assert(t > u64::MAX as u128);
                    }
                }
                if t > u64::MAX as u128 {
                    acc = cap;
                } else {
                    acc = t;
                }
                i = i + 1;
                continue ;
            }
        }
        proof {
            assert(digits_end(body@, i as int) == i as int);
        }
        return (i, acc);
    }
}

/// Extracts the price in integer cents from a quote payload, exactly as
/// `spec_price_cents` reads it; a payload without a readable price, or with
/// one beyond `u64::MAX` cents, is malformed.
pub fn parse_price_payload(body: &Vec<u8>) -> (r: Result<u64, FeedError>)
    ensures
        match r {
            Ok(c) => spec_price_cents(body@) == Some(c as nat),
            Err(e) => e matches FeedError::MalformedPayload && (spec_price_cents(body@) is None
                || spec_price_cents(body@).unwrap() > u64::MAX),
        },
{
    let n = body.len();
    let start = skip_ws_exec(body, 0);
    if !(start < n && body[start] == 123) {
        return Err(FeedError::MalformedPayload);
    }
    let b = match find_btc_exec(body) {
        Some(b) => b,
        None => {
            return Err(FeedError::MalformedPayload);
        },
    };
    let c1 = skip_ws_exec(body, b);
    if !(c1 < n && body[c1] == 58) {
        return Err(FeedError::MalformedPayload);
    }
    let o = skip_ws_exec(body, c1 + 1);
    if !(o < n && body[o] == 123) {
        return Err(FeedError::MalformedPayload);
    }
    let close = brace_end_exec(body, o + 1);
    if close >= n {
        return Err(FeedError::MalformedPayload);
    }
    let k = match find_usd_exec(body, o + 1) {
        Some(u) => u,
        None => {
            return Err(FeedError::MalformedPayload);
        },
    };
    if k > close {
        return Err(FeedError::MalformedPayload);
    }
    let c = skip_ws_exec(body, k);
    if !(c < n && body[c] == 58) {
        return Err(FeedError::MalformedPayload);
    }
    let n0 = skip_ws_exec(body, c + 1);
    let (n1, int_acc) = read_digits(body, n0);
    if n1 == n0 {
        proof {
            assert(!(digits_end(body@, n0 as int) > n0 as int));
        }
        return Err(FeedError::MalformedPayload);
    }
    let ghost int_val = dec_val(body@, n0 as int, n1 as int);
    let frac: u128 = if n1 < n && body[n1] == 46 {
        let f1 = digits_end_exec(body, n1 + 1);
        if f1 == n1 + 1 {
            return Err(FeedError::MalformedPayload);
        }
        if f1 < n {
            let be = body[f1];
            if be == 101 || be == 69 {
                return Err(FeedError::MalformedPayload);
            }
        }
        proof {
            assert(is_digit(body@[n1 as int + 1])) by {
                if !is_digit(body@[n1 as int + 1]) {
                    assert(digits_end(body@, n1 as int + 1) == n1 as int + 1);
                }
            }
            assert(dec_val(body@, n1 as int + 1, n1 as int + 1) == 0);
            assert(dec_val(body@, n1 as int + 1, n1 as int + 2) == dec_val(
                body@,
                n1 as int + 1,
                n1 as int + 1,
            ) * 10 + (body@[n1 as int + 1] - 48) as nat);
        }
        let d1: u128 = (body[n1 + 1] - 48) as u128;
        if f1 > n1 + 2 {
            proof {
                assert(digits_end(body@, n1 as int + 1) == digits_end(body@, n1 as int + 2));
                assert(is_digit(body@[n1 as int + 2])) by {
                    if !is_digit(body@[n1 as int + 2]) {
                        assert(digits_end(body@, n1 as int + 2) == n1 as int + 2);
                    }
                }
                assert(dec_val(body@, n1 as int + 1, n1 as int + 3) == dec_val(
                    body@,
                    n1 as int + 1,
                    n1 as int + 2,
                ) * 10 + (body@[n1 as int + 2] - 48) as nat);
            }
            let d2: u128 = (body[n1 + 2] - 48) as u128;
            d1 * 10 + d2
        } else {
            d1 * 10
        }
    } else {
        if n1 < n {
            let be = body[n1];
            if be == 101 || be == 69 {
                return Err(FeedError::MalformedPayload);
            }
        }
        0
    };
    proof {
        if int_val > u64::MAX {
            assert(int_val * 100 >= int_val) by (nonlinear_arith)
                requires
                    int_val >= 0,
            ;
        }
    }
    if int_acc > u64::MAX as u128 {
        return Err(FeedError::MalformedPayload);
    }
    let total: u128 = int_acc * 100 + frac;
    if total > u64::MAX as u128 {
        return Err(FeedError::MalformedPayload);
    }
    Ok(total as u64)
}

/// Normalizes a quote-service response: the status must be 200, and the
/// payload must carry a readable price.
pub fn normalize_price_response(status: u64, body: &Vec<u8>) -> (r: Result<u64, FeedError>)
    ensures
        status != 200 ==> r == Err::<u64, FeedError>(FeedError::BadStatus { status }),
        status == 200 ==> match r {
            Ok(c) => spec_price_cents(body@) == Some(c as nat),
            Err(e) => e matches FeedError::MalformedPayload && (spec_price_cents(body@) is None
                || spec_price_cents(body@).unwrap() > u64::MAX),
        },
{
    if status != 200 {
        Err(FeedError::BadStatus { status })
    } else {
        parse_price_payload(body)
    }
}

} // verus!
