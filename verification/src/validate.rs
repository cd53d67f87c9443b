//! Domain validators layered on the extractor primitives: email addresses,
//! web URLs, phone numbers, language codes and unit-of-measurement codes.
//!
//! Each validator is a pure predicate over the input bytes, specified by a
//! spec function of the same shape, and each is total: out-of-range access
//! that would abort is replaced by a `false` verdict.

use vstd::prelude::*;

use crate::numbers::is_digit;
use crate::numbers::DIGIT_ZERO;
use crate::numbers::PLUS;

verus! {

pub const AT_SIGN: u8 = 64;
pub const DOT: u8 = 46;
pub const HYPHEN: u8 = 45;
pub const UNDERSCORE: u8 = 95;

pub open spec fn is_ascii_alphabetic(c: u8) -> bool {
    (65 <= c <= 90) || (97 <= c <= 122)
}

// ---------------------------------------------------------------------------
// Email
// ---------------------------------------------------------------------------

/// Bytes allowed in the part before the `@`.
pub open spec fn is_local_byte(c: u8) -> bool {
    is_ascii_alphabetic(c) || c == HYPHEN || c == DOT || c == UNDERSCORE
}

/// Bytes allowed in the part after the `@`.
pub open spec fn is_domain_byte(c: u8) -> bool {
    is_ascii_alphabetic(c) || c == HYPHEN || c == DOT
}

/// State of the email scan: whether an `@` was seen, whether the last
/// checked byte was acceptable, whether the cursor is past the `@`, and
/// whether a dot occurred after the `@`.
pub struct EmailState {
    pub seen_at: bool,
    pub valid: bool,
    pub in_domain: bool,
    pub dot_in_domain: bool,
}

pub open spec fn email_init() -> EmailState {
    EmailState { seen_at: false, valid: false, in_domain: false, dot_in_domain: false }
}

/// Scan of the email bytes from position `i`; a byte outside its part's
/// alphabet stops the scan with `valid` cleared.
pub open spec fn email_scan(s: Seq<u8>, i: int, st: EmailState) -> EmailState
    decreases s.len() - i,
{
    if i < 0 || i >= s.len() {
        st
    } else {
        let c = s[i];
        if c == AT_SIGN {
            email_scan(
                s,
                i + 1,
                EmailState {
                    seen_at: true,
                    valid: st.valid,
                    in_domain: true,
                    dot_in_domain: st.dot_in_domain,
                },
            )
        } else if !st.in_domain {
            if is_local_byte(c) {
                email_scan(
                    s,
                    i + 1,
                    EmailState {
                        seen_at: st.seen_at,
                        valid: true,
                        in_domain: st.in_domain,
                        dot_in_domain: st.dot_in_domain,
                    },
                )
            } else {
                EmailState {
                    seen_at: st.seen_at,
                    valid: false,
                    in_domain: st.in_domain,
                    dot_in_domain: st.dot_in_domain,
                }
            }
        } else {
            if is_domain_byte(c) {
                email_scan(
                    s,
                    i + 1,
                    EmailState {
                        seen_at: st.seen_at,
                        valid: true,
                        in_domain: st.in_domain,
                        dot_in_domain: st.dot_in_domain || c == DOT,
                    },
                )
            } else {
                EmailState {
                    seen_at: st.seen_at,
                    valid: false,
                    in_domain: st.in_domain,
                    dot_in_domain: st.dot_in_domain,
                }
            }
        }
    }
}

/// An address with an `@` and a dot after it is judged by its bytes; one
/// without either is judged by the presence of the `@` alone.
pub open spec fn spec_validate_email(s: Seq<u8>) -> bool {
    let st = email_scan(s, 0, email_init());
    if st.seen_at && st.dot_in_domain {
        st.valid
    } else {
        st.seen_at
    }
}

/// Validate an email address.
pub fn validate_email(email: &Vec<u8>) -> (r: bool)
    ensures
        r == spec_validate_email(email@),
{
    let mut seen_at = false;
    let mut valid = false;
    let mut in_domain = false;
    let mut dot_in_domain = false;
    let mut i: usize = 0;
    let ghost fin = email_scan(email@, 0, email_init());
    while i < email.len()
        invariant_except_break
            i <= email@.len(),
            fin == email_scan(email@, 0, email_init()),
            fin == email_scan(
                email@,
                i as int,
                (EmailState { seen_at, valid, in_domain, dot_in_domain }),
            ),
        ensures
            fin == (EmailState { seen_at, valid, in_domain, dot_in_domain }),
        decreases email.len() - i,
    {
        let c = email[i];
        if c == AT_SIGN {
            seen_at = true;
            in_domain = true;
        } else if !in_domain {
            if (65 <= c && c <= 90) || (97 <= c && c <= 122) || c == HYPHEN || c == DOT || c
                == UNDERSCORE {
                valid = true;
            } else {
                valid = false;
                break ;
            }
        } else {
            if (65 <= c && c <= 90) || (97 <= c && c <= 122) || c == HYPHEN || c == DOT {
                valid = true;
                if c == DOT {
                    dot_in_domain = true;
                }
            } else {
                valid = false;
                break ;
            }
        }
        i = i + 1;
    }
    if seen_at && dot_in_domain {
        valid
    } else {
        seen_at
    }
}

// ---------------------------------------------------------------------------
// Web URL
// ---------------------------------------------------------------------------

/// Bytes allowed after the scheme prefix.
pub open spec fn is_url_byte(c: u8) -> bool {
    (32 <= c <= 95) || (97 <= c <= 126)
}

pub open spec fn https_prefix() -> Seq<u8> {
    seq![104u8, 116u8, 116u8, 112u8, 115u8, 58u8, 47u8, 47u8]
}

pub open spec fn http_prefix() -> Seq<u8> {
    seq![104u8, 116u8, 116u8, 112u8, 58u8, 47u8, 47u8]
}

pub open spec fn url_tail_ok(s: Seq<u8>, start: int) -> bool {
    s.len() > start && (forall|i: int| start <= i < s.len() ==> is_url_byte(s[i]))
}

/// A URL must open with `https://` or `http://` and carry at least one more
/// byte, all in the printable ranges.
pub open spec fn spec_validate_weburl(s: Seq<u8>) -> bool {
    if s.len() >= 8 && s.subrange(0, 8) == https_prefix() {
        url_tail_ok(s, 8)
    } else if s.len() >= 7 && s.subrange(0, 7) == http_prefix() {
        url_tail_ok(s, 7)
    } else {
        false
    }
}

/// Validate a web URL.
pub fn validate_weburl(weburl: &Vec<u8>) -> (r: bool)
    ensures
        r == spec_validate_weburl(weburl@),
{
    let n = weburl.len();
    if n < 7 {
        return false;
    }
    let https = n >= 8 && weburl[0] == 104 && weburl[1] == 116 && weburl[2] == 116 && weburl[3]
        == 112 && weburl[4] == 115 && weburl[5] == 58 && weburl[6] == 47 && weburl[7] == 47;
    let http = weburl[0] == 104 && weburl[1] == 116 && weburl[2] == 116 && weburl[3] == 112
        && weburl[4] == 58 && weburl[5] == 47 && weburl[6] == 47;
    proof {
        if n >= 8 {
            if https {
                assert(weburl@.subrange(0, 8) =~= https_prefix());
            } else {
                assert(weburl@.subrange(0, 8) != https_prefix()) by {
                    if weburl@.subrange(0, 8) == https_prefix() {
                        assert(weburl@.subrange(0, 8)[0] == 104);
                        assert(weburl@.subrange(0, 8)[1] == 116);
                        assert(weburl@.subrange(0, 8)[2] == 116);
                        assert(weburl@.subrange(0, 8)[3] == 112);
                        assert(weburl@.subrange(0, 8)[4] == 115);
                        assert(weburl@.subrange(0, 8)[5] == 58);
                        assert(weburl@.subrange(0, 8)[6] == 47);
                        assert(weburl@.subrange(0, 8)[7] == 47);
                    }
                }
            }
        }
        if http {
            assert(weburl@.subrange(0, 7) =~= http_prefix());
        } else {
            assert(weburl@.subrange(0, 7) != http_prefix()) by {
                if weburl@.subrange(0, 7) == http_prefix() {
                    assert(weburl@.subrange(0, 7)[0] == 104);
                    assert(weburl@.subrange(0, 7)[1] == 116);
                    assert(weburl@.subrange(0, 7)[2] == 116);
                    assert(weburl@.subrange(0, 7)[3] == 112);
                    assert(weburl@.subrange(0, 7)[4] == 58);
                    assert(weburl@.subrange(0, 7)[5] == 47);
                    assert(weburl@.subrange(0, 7)[6] == 47);
                }
            }
        }
    }
    let start: usize = if https {
        8
    } else if http {
        7
    } else {
        return false;
    };
    if n <= start {
        return false;
    }
    let mut i = start;
    while i < n
        invariant
            start <= i <= n,
            n == weburl@.len(),
            forall|t: int| start <= t < i ==> is_url_byte(weburl@[t]),
        decreases n - i,
    {
        let c = weburl[i];
        if !((32 <= c && c <= 95) || (97 <= c && c <= 126)) {
            return false;
        }
        i = i + 1;
    }
    true
}

// ---------------------------------------------------------------------------
// Phone numbers
// ---------------------------------------------------------------------------
// The international dial prefixes and the language codes below are written
// as the ASCII codes of their digits and letters: 48 through 57 are the
// digits 0 through 9, and 97 through 122 the letters a through z.

/// One-digit international dial prefixes.
pub open spec fn is_dial_prefix1(a: u8) -> bool {
    a == 49 || a == 55
}

/// Two-digit international dial prefixes.
pub open spec fn is_dial_prefix2(a: u8, b: u8) -> bool {
        (a == 57 && b == 51) || (a == 53 && b == 52) || (a == 54 && b == 49) ||
        (a == 52 && b == 51) || (a == 51 && b == 50) || (a == 53 && b == 53) ||
        (a == 53 && b == 54) || (a == 56 && b == 54) || (a == 53 && b == 55) ||
        (a == 53 && b == 51) || (a == 52 && b == 53) || (a == 50 && b == 48) ||
        (a == 51 && b == 51) || (a == 52 && b == 57) || (a == 51 && b == 48) ||
        (a == 51 && b == 54) || (a == 57 && b == 49) || (a == 54 && b == 50) ||
        (a == 51 && b == 57) || (a == 56 && b == 49) || (a == 54 && b == 48) ||
        (a == 53 && b == 50) || (a == 57 && b == 53) || (a == 51 && b == 49) ||
        (a == 54 && b == 52) || (a == 52 && b == 55) || (a == 57 && b == 50) ||
        (a == 53 && b == 49) || (a == 54 && b == 51) || (a == 52 && b == 56) ||
        (a == 52 && b == 48) || (a == 54 && b == 53) || (a == 50 && b == 55) ||
        (a == 51 && b == 52) || (a == 57 && b == 52) || (a == 52 && b == 54) ||
        (a == 52 && b == 49) || (a == 54 && b == 54) || (a == 57 && b == 48) ||
        (a == 52 && b == 52) || (a == 57 && b == 56) || (a == 56 && b == 50) ||
        (a == 53 && b == 56) || (a == 56 && b == 52)
}

/// Three-digit international dial prefixes.
pub open spec fn is_dial_prefix3(a: u8, b: u8, c: u8) -> bool {
        (a == 57 && b == 55 && c == 50) || (a == 51 && b == 53 && c == 53) ||
        (a == 50 && b == 49 && c == 51) || (a == 51 && b == 55 && c == 54) ||
        (a == 50 && b == 52 && c == 52) || (a == 51 && b == 55 && c == 52) ||
        (a == 50 && b == 57 && c == 55) || (a == 57 && b == 57 && c == 52) ||
        (a == 57 && b == 55 && c == 51) || (a == 56 && b == 56 && c == 48) ||
        (a == 51 && b == 55 && c == 53) || (a == 53 && b == 48 && c == 49) ||
        (a == 50 && b == 50 && c == 57) || (a == 57 && b == 55 && c == 53) ||
        (a == 51 && b == 56 && c == 55) || (a == 50 && b == 54 && c == 55) ||
        (a == 50 && b == 52 && c == 54) || (a == 51 && b == 53 && c == 57) ||
        (a == 50 && b == 50 && c == 54) || (a == 50 && b == 53 && c == 55) ||
        (a == 56 && b == 53 && c == 53) || (a == 50 && b == 51 && c == 55) ||
        (a == 50 && b == 51 && c == 56) || (a == 51 && b == 52 && c == 53) ||
        (a == 50 && b == 51 && c == 54) || (a == 50 && b == 51 && c == 53) ||
        (a == 50 && b == 54 && c == 57) || (a == 50 && b == 52 && c == 50) ||
        (a == 54 && b == 56 && c == 50) || (a == 53 && b == 48 && c == 54) ||
        (a == 51 && b == 56 && c == 53) || (a == 53 && b == 51 && c == 55) ||
        (a == 52 && b == 50 && c == 48) || (a == 50 && b == 53 && c == 51) ||
        (a == 53 && b == 57 && c == 51) || (a == 53 && b == 48 && c == 51) ||
        (a == 50 && b == 52 && c == 48) || (a == 50 && b == 57 && c == 49) ||
        (a == 51 && b == 55 && c == 50) || (a == 50 && b == 53 && c == 49) ||
        (a == 50 && b == 57 && c == 56) || (a == 54 && b == 55 && c == 57) ||
        (a == 51 && b == 53 && c == 56) || (a == 53 && b == 57 && c == 52) ||
        (a == 54 && b == 56 && c == 57) || (a == 50 && b == 52 && c == 49) ||
        (a == 50 && b == 50 && c == 48) || (a == 57 && b == 57 && c == 53) ||
        (a == 50 && b == 51 && c == 51) || (a == 51 && b == 53 && c == 48) ||
        (a == 50 && b == 57 && c == 57) || (a == 53 && b == 57 && c == 48) ||
        (a == 53 && b == 48 && c == 50) || (a == 50 && b == 50 && c == 52) ||
        (a == 50 && b == 52 && c == 53) || (a == 53 && b == 57 && c == 53) ||
        (a == 53 && b == 48 && c == 57) || (a == 53 && b == 48 && c == 52) ||
        (a == 51 && b == 53 && c == 52) || (a == 57 && b == 54 && c == 52) ||
        (a == 51 && b == 53 && c == 51) || (a == 57 && b == 54 && c == 50) ||
        (a == 50 && b == 53 && c == 52) || (a == 54 && b == 56 && c == 54) ||
        (a == 57 && b == 54 && c == 53) || (a == 57 && b == 57 && c == 54) ||
        (a == 51 && b == 55 && c == 49) || (a == 57 && b == 54 && c == 49) ||
        (a == 50 && b == 54 && c == 54) || (a == 50 && b == 51 && c == 49) ||
        (a == 52 && b == 50 && c == 51) || (a == 51 && b == 55 && c == 48) ||
        (a == 51 && b == 53 && c == 50) || (a == 50 && b == 54 && c == 49) ||
        (a == 50 && b == 54 && c == 53) || (a == 57 && b == 54 && c == 48) ||
        (a == 50 && b == 50 && c == 51) || (a == 51 && b == 53 && c == 54) ||
        (a == 54 && b == 57 && c == 50) || (a == 53 && b == 57 && c == 54) ||
        (a == 50 && b == 50 && c == 50) || (a == 50 && b == 51 && c == 48) ||
        (a == 50 && b == 54 && c == 50) || (a == 51 && b == 55 && c == 55) ||
        (a == 57 && b == 55 && c == 54) || (a == 51 && b == 56 && c == 50) ||
        (a == 50 && b == 49 && c == 50) || (a == 50 && b == 54 && c == 52) ||
        (a == 54 && b == 55 && c == 52) || (a == 57 && b == 55 && c == 55) ||
        (a == 53 && b == 57 && c == 57) || (a == 54 && b == 56 && c == 55) ||
        (a == 53 && b == 48 && c == 53) || (a == 50 && b == 50 && c == 55) ||
        (a == 50 && b == 51 && c == 52) || (a == 54 && b == 56 && c == 51) ||
        (a == 54 && b == 55 && c == 50) || (a == 57 && b == 54 && c == 56) ||
        (a == 54 && b == 56 && c == 48) || (a == 53 && b == 48 && c == 55) ||
        (a == 54 && b == 55 && c == 53) || (a == 51 && b == 53 && c == 49) ||
        (a == 57 && b == 55 && c == 52) || (a == 50 && b == 53 && c == 48) ||
        (a == 54 && b == 56 && c == 53) || (a == 51 && b == 55 && c == 56) ||
        (a == 57 && b == 54 && c == 54) || (a == 50 && b == 50 && c == 49) ||
        (a == 51 && b == 56 && c == 49) || (a == 50 && b == 52 && c == 56) ||
        (a == 50 && b == 51 && c == 50) || (a == 52 && b == 50 && c == 49) ||
        (a == 51 && b == 56 && c == 54) || (a == 54 && b == 55 && c == 55) ||
        (a == 53 && b == 48 && c == 48) || (a == 50 && b == 52 && c == 57) ||
        (a == 53 && b == 57 && c == 55) || (a == 50 && b == 54 && c == 56) ||
        (a == 57 && b == 57 && c == 50) || (a == 50 && b == 50 && c == 56) ||
        (a == 54 && b == 57 && c == 48) || (a == 54 && b == 55 && c == 54) ||
        (a == 50 && b == 49 && c == 54) || (a == 57 && b == 57 && c == 51) ||
        (a == 54 && b == 56 && c == 56) || (a == 50 && b == 53 && c == 54) ||
        (a == 51 && b == 56 && c == 48) || (a == 57 && b == 55 && c == 49) ||
        (a == 53 && b == 57 && c == 56) || (a == 57 && b == 57 && c == 56) ||
        (a == 54 && b == 55 && c == 56) || (a == 54 && b == 56 && c == 49) ||
        (a == 57 && b == 54 && c == 55) || (a == 50 && b == 54 && c == 48) ||
        (a == 50 && b == 54 && c == 51) || (a == 53 && b == 57 && c == 49) ||
        (a == 54 && b == 55 && c == 51) || (a == 50 && b == 52 && c == 51) ||
        (a == 50 && b == 50 && c == 53) || (a == 51 && b == 55 && c == 57) ||
        (a == 56 && b == 53 && c == 50) || (a == 56 && b == 53 && c == 48) ||
        (a == 56 && b == 53 && c == 54) || (a == 50 && b == 49 && c == 56) ||
        (a == 56 && b == 53 && c == 51) || (a == 51 && b == 56 && c == 57) ||
        (a == 54 && b == 57 && c == 49) || (a == 51 && b == 55 && c == 51) ||
        (a == 50 && b == 53 && c == 56) || (a == 57 && b == 55 && c == 48) ||
        (a == 56 && b == 55 && c == 50) || (a == 50 && b == 57 && c == 48) ||
        (a == 53 && b == 48 && c == 56) || (a == 50 && b == 51 && c == 57) ||
        (a == 50 && b == 53 && c == 50) || (a == 57 && b == 54 && c == 51) ||
        (a == 56 && b == 56 && c == 54) || (a == 50 && b == 53 && c == 53) ||
        (a == 54 && b == 55 && c == 48)
}

fn dial_prefix1(a: u8) -> (r: bool)
    ensures
        r == is_dial_prefix1(a),
{
    a == 49 || a == 55
}

fn dial_prefix2(a: u8, b: u8) -> (r: bool)
    ensures
        r == is_dial_prefix2(a, b),
{
        (a == 57 && b == 51) || (a == 53 && b == 52) || (a == 54 && b == 49) ||
        (a == 52 && b == 51) || (a == 51 && b == 50) || (a == 53 && b == 53) ||
        (a == 53 && b == 54) || (a == 56 && b == 54) || (a == 53 && b == 55) ||
        (a == 53 && b == 51) || (a == 52 && b == 53) || (a == 50 && b == 48) ||
        (a == 51 && b == 51) || (a == 52 && b == 57) || (a == 51 && b == 48) ||
        (a == 51 && b == 54) || (a == 57 && b == 49) || (a == 54 && b == 50) ||
        (a == 51 && b == 57) || (a == 56 && b == 49) || (a == 54 && b == 48) ||
        (a == 53 && b == 50) || (a == 57 && b == 53) || (a == 51 && b == 49) ||
        (a == 54 && b == 52) || (a == 52 && b == 55) || (a == 57 && b == 50) ||
        (a == 53 && b == 49) || (a == 54 && b == 51) || (a == 52 && b == 56) ||
        (a == 52 && b == 48) || (a == 54 && b == 53) || (a == 50 && b == 55) ||
        (a == 51 && b == 52) || (a == 57 && b == 52) || (a == 52 && b == 54) ||
        (a == 52 && b == 49) || (a == 54 && b == 54) || (a == 57 && b == 48) ||
        (a == 52 && b == 52) || (a == 57 && b == 56) || (a == 56 && b == 50) ||
        (a == 53 && b == 56) || (a == 56 && b == 52)
}

fn dial_prefix3(a: u8, b: u8, c: u8) -> (r: bool)
    ensures
        r == is_dial_prefix3(a, b, c),
{
        (a == 57 && b == 55 && c == 50) || (a == 51 && b == 53 && c == 53) ||
        (a == 50 && b == 49 && c == 51) || (a == 51 && b == 55 && c == 54) ||
        (a == 50 && b == 52 && c == 52) || (a == 51 && b == 55 && c == 52) ||
        (a == 50 && b == 57 && c == 55) || (a == 57 && b == 57 && c == 52) ||
        (a == 57 && b == 55 && c == 51) || (a == 56 && b == 56 && c == 48) ||
        (a == 51 && b == 55 && c == 53) || (a == 53 && b == 48 && c == 49) ||
        (a == 50 && b == 50 && c == 57) || (a == 57 && b == 55 && c == 53) ||
        (a == 51 && b == 56 && c == 55) || (a == 50 && b == 54 && c == 55) ||
        (a == 50 && b == 52 && c == 54) || (a == 51 && b == 53 && c == 57) ||
        (a == 50 && b == 50 && c == 54) || (a == 50 && b == 53 && c == 55) ||
        (a == 56 && b == 53 && c == 53) || (a == 50 && b == 51 && c == 55) ||
        (a == 50 && b == 51 && c == 56) || (a == 51 && b == 52 && c == 53) ||
        (a == 50 && b == 51 && c == 54) || (a == 50 && b == 51 && c == 53) ||
        (a == 50 && b == 54 && c == 57) || (a == 50 && b == 52 && c == 50) ||
        (a == 54 && b == 56 && c == 50) || (a == 53 && b == 48 && c == 54) ||
        (a == 51 && b == 56 && c == 53) || (a == 53 && b == 51 && c == 55) ||
        (a == 52 && b == 50 && c == 48) || (a == 50 && b == 53 && c == 51) ||
        (a == 53 && b == 57 && c == 51) || (a == 53 && b == 48 && c == 51) ||
        (a == 50 && b == 52 && c == 48) || (a == 50 && b == 57 && c == 49) ||
        (a == 51 && b == 55 && c == 50) || (a == 50 && b == 53 && c == 49) ||
        (a == 50 && b == 57 && c == 56) || (a == 54 && b == 55 && c == 57) ||
        (a == 51 && b == 53 && c == 56) || (a == 53 && b == 57 && c == 52) ||
        (a == 54 && b == 56 && c == 57) || (a == 50 && b == 52 && c == 49) ||
        (a == 50 && b == 50 && c == 48) || (a == 57 && b == 57 && c == 53) ||
        (a == 50 && b == 51 && c == 51) || (a == 51 && b == 53 && c == 48) ||
        (a == 50 && b == 57 && c == 57) || (a == 53 && b == 57 && c == 48) ||
        (a == 53 && b == 48 && c == 50) || (a == 50 && b == 50 && c == 52) ||
        (a == 50 && b == 52 && c == 53) || (a == 53 && b == 57 && c == 53) ||
        (a == 53 && b == 48 && c == 57) || (a == 53 && b == 48 && c == 52) ||
        (a == 51 && b == 53 && c == 52) || (a == 57 && b == 54 && c == 52) ||
        (a == 51 && b == 53 && c == 51) || (a == 57 && b == 54 && c == 50) ||
        (a == 50 && b == 53 && c == 52) || (a == 54 && b == 56 && c == 54) ||
        (a == 57 && b == 54 && c == 53) || (a == 57 && b == 57 && c == 54) ||
        (a == 51 && b == 55 && c == 49) || (a == 57 && b == 54 && c == 49) ||
        (a == 50 && b == 54 && c == 54) || (a == 50 && b == 51 && c == 49) ||
        (a == 52 && b == 50 && c == 51) || (a == 51 && b == 55 && c == 48) ||
        (a == 51 && b == 53 && c == 50) || (a == 50 && b == 54 && c == 49) ||
        (a == 50 && b == 54 && c == 53) || (a == 57 && b == 54 && c == 48) ||
        (a == 50 && b == 50 && c == 51) || (a == 51 && b == 53 && c == 54) ||
        (a == 54 && b == 57 && c == 50) || (a == 53 && b == 57 && c == 54) ||
        (a == 50 && b == 50 && c == 50) || (a == 50 && b == 51 && c == 48) ||
        (a == 50 && b == 54 && c == 50) || (a == 51 && b == 55 && c == 55) ||
        (a == 57 && b == 55 && c == 54) || (a == 51 && b == 56 && c == 50) ||
        (a == 50 && b == 49 && c == 50) || (a == 50 && b == 54 && c == 52) ||
        (a == 54 && b == 55 && c == 52) || (a == 57 && b == 55 && c == 55) ||
        (a == 53 && b == 57 && c == 57) || (a == 54 && b == 56 && c == 55) ||
        (a == 53 && b == 48 && c == 53) || (a == 50 && b == 50 && c == 55) ||
        (a == 50 && b == 51 && c == 52) || (a == 54 && b == 56 && c == 51) ||
        (a == 54 && b == 55 && c == 50) || (a == 57 && b == 54 && c == 56) ||
        (a == 54 && b == 56 && c == 48) || (a == 53 && b == 48 && c == 55) ||
        (a == 54 && b == 55 && c == 53) || (a == 51 && b == 53 && c == 49) ||
        (a == 57 && b == 55 && c == 52) || (a == 50 && b == 53 && c == 48) ||
        (a == 54 && b == 56 && c == 53) || (a == 51 && b == 55 && c == 56) ||
        (a == 57 && b == 54 && c == 54) || (a == 50 && b == 50 && c == 49) ||
        (a == 51 && b == 56 && c == 49) || (a == 50 && b == 52 && c == 56) ||
        (a == 50 && b == 51 && c == 50) || (a == 52 && b == 50 && c == 49) ||
        (a == 51 && b == 56 && c == 54) || (a == 54 && b == 55 && c == 55) ||
        (a == 53 && b == 48 && c == 48) || (a == 50 && b == 52 && c == 57) ||
        (a == 53 && b == 57 && c == 55) || (a == 50 && b == 54 && c == 56) ||
        (a == 57 && b == 57 && c == 50) || (a == 50 && b == 50 && c == 56) ||
        (a == 54 && b == 57 && c == 48) || (a == 54 && b == 55 && c == 54) ||
        (a == 50 && b == 49 && c == 54) || (a == 57 && b == 57 && c == 51) ||
        (a == 54 && b == 56 && c == 56) || (a == 50 && b == 53 && c == 54) ||
        (a == 51 && b == 56 && c == 48) || (a == 57 && b == 55 && c == 49) ||
        (a == 53 && b == 57 && c == 56) || (a == 57 && b == 57 && c == 56) ||
        (a == 54 && b == 55 && c == 56) || (a == 54 && b == 56 && c == 49) ||
        (a == 57 && b == 54 && c == 55) || (a == 50 && b == 54 && c == 48) ||
        (a == 50 && b == 54 && c == 51) || (a == 53 && b == 57 && c == 49) ||
        (a == 54 && b == 55 && c == 51) || (a == 50 && b == 52 && c == 51) ||
        (a == 50 && b == 50 && c == 53) || (a == 51 && b == 55 && c == 57) ||
        (a == 56 && b == 53 && c == 50) || (a == 56 && b == 53 && c == 48) ||
        (a == 56 && b == 53 && c == 54) || (a == 50 && b == 49 && c == 56) ||
        (a == 56 && b == 53 && c == 51) || (a == 51 && b == 56 && c == 57) ||
        (a == 54 && b == 57 && c == 49) || (a == 51 && b == 55 && c == 51) ||
        (a == 50 && b == 53 && c == 56) || (a == 57 && b == 55 && c == 48) ||
        (a == 56 && b == 55 && c == 50) || (a == 50 && b == 57 && c == 48) ||
        (a == 53 && b == 48 && c == 56) || (a == 50 && b == 51 && c == 57) ||
        (a == 50 && b == 53 && c == 50) || (a == 57 && b == 54 && c == 51) ||
        (a == 56 && b == 56 && c == 54) || (a == 50 && b == 53 && c == 53) ||
        (a == 54 && b == 55 && c == 48)
}

/// A phone number is at most 23 bytes of digits, with an optional leading
/// `+`; after dropping a `00` or `+` prefix it must open with a known
/// international dial prefix of one, two or three digits, and must be at
/// least three digits long from that point.
pub open spec fn spec_validate_phonenumber(s: Seq<u8>) -> bool {
    if s.len() > 23 {
        false
    } else if !(forall|i: int| 0 <= i < s.len() ==> (is_digit(s[i]) || (i == 0 && s[i] == PLUS))) {
        false
    } else {
        let sp: int = if s.len() >= 2 && s[0] == DIGIT_ZERO && s[1] == DIGIT_ZERO {
            2
        } else if s.len() >= 1 && s[0] == PLUS {
            1
        } else {
            0
        };
        if s.len() < sp + 3 {
            false
        } else {
            is_dial_prefix3(s[sp], s[sp + 1], s[sp + 2]) || is_dial_prefix2(s[sp], s[sp + 1])
                || is_dial_prefix1(s[sp])
        }
    }
}

/// Validate a phone number.
pub fn validate_phonenumber(phonenumber: &Vec<u8>) -> (r: bool)
    ensures
        r == spec_validate_phonenumber(phonenumber@),
{
    let n = phonenumber.len();
    if n > 23 {
        return false;
    }
    let mut i: usize = 0;
    while i < n
        invariant
            i <= n,
            n == phonenumber@.len(),
            forall|t: int|
                0 <= t < i ==> (is_digit(phonenumber@[t]) || (t == 0 && phonenumber@[t] == PLUS)),
        decreases n - i,
    {
        let c = phonenumber[i];
        if !((48 <= c && c <= 57) || (i == 0 && c == PLUS)) {
            return false;
        }
        i = i + 1;
    }
    let start: usize = if n >= 2 && phonenumber[0] == DIGIT_ZERO && phonenumber[1] == DIGIT_ZERO {
        2
    } else if n >= 1 && phonenumber[0] == PLUS {
        1
    } else {
        0
    };
    if n < start + 3 {
        return false;
    }
    let a = phonenumber[start];
    let b = phonenumber[start + 1];
    let c = phonenumber[start + 2];
    dial_prefix3(a, b, c) || dial_prefix2(a, b) || dial_prefix1(a)
}

// ---------------------------------------------------------------------------
// Language and unit-of-measurement codes
// ---------------------------------------------------------------------------

/// Two-letter language codes.
pub open spec fn is_language_pair(a: u8, b: u8) -> bool {
        (a == 97 && b == 97) || (a == 97 && b == 98) || (a == 97 && b == 101) ||
        (a == 97 && b == 102) || (a == 97 && b == 107) || (a == 97 && b == 109) ||
        (a == 97 && b == 110) || (a == 97 && b == 114) || (a == 97 && b == 115) ||
        (a == 97 && b == 118) || (a == 97 && b == 121) || (a == 97 && b == 122) ||
        (a == 98 && b == 97) || (a == 98 && b == 101) || (a == 98 && b == 103) ||
        (a == 98 && b == 104) || (a == 98 && b == 105) || (a == 98 && b == 109) ||
        (a == 98 && b == 110) || (a == 98 && b == 111) || (a == 98 && b == 114) ||
        (a == 98 && b == 115) || (a == 99 && b == 97) || (a == 99 && b == 101) ||
        (a == 99 && b == 104) || (a == 99 && b == 111) || (a == 99 && b == 114) ||
        (a == 99 && b == 115) || (a == 99 && b == 117) || (a == 99 && b == 118) ||
        (a == 99 && b == 121) || (a == 100 && b == 97) || (a == 100 && b == 101) ||
        (a == 100 && b == 118) || (a == 100 && b == 122) || (a == 101 && b == 101) ||
        (a == 101 && b == 108) || (a == 101 && b == 110) || (a == 101 && b == 111) ||
        (a == 101 && b == 115) || (a == 101 && b == 116) || (a == 101 && b == 117) ||
        (a == 102 && b == 97) || (a == 102 && b == 102) || (a == 102 && b == 105) ||
        (a == 102 && b == 106) || (a == 102 && b == 111) || (a == 102 && b == 114) ||
        (a == 102 && b == 121) || (a == 103 && b == 97) || (a == 103 && b == 100) ||
        (a == 103 && b == 108) || (a == 103 && b == 110) || (a == 103 && b == 117) ||
        (a == 103 && b == 118) || (a == 104 && b == 97) || (a == 104 && b == 101) ||
        (a == 104 && b == 105) || (a == 104 && b == 111) || (a == 104 && b == 114) ||
        (a == 104 && b == 116) || (a == 104 && b == 117) || (a == 104 && b == 121) ||
        (a == 104 && b == 122) || (a == 105 && b == 97) || (a == 105 && b == 100) ||
        (a == 105 && b == 101) || (a == 105 && b == 103) || (a == 105 && b == 105) ||
        (a == 105 && b == 107) || (a == 105 && b == 111) || (a == 105 && b == 115) ||
        (a == 105 && b == 116) || (a == 105 && b == 117) || (a == 106 && b == 97) ||
        (a == 106 && b == 118) || (a == 107 && b == 97) || (a == 107 && b == 103) ||
        (a == 107 && b == 105) || (a == 107 && b == 106) || (a == 107 && b == 107) ||
        (a == 107 && b == 108) || (a == 107 && b == 109) || (a == 107 && b == 110) ||
        (a == 107 && b == 111) || (a == 107 && b == 114) || (a == 107 && b == 115) ||
        (a == 107 && b == 117) || (a == 107 && b == 118) || (a == 107 && b == 119) ||
        (a == 107 && b == 121) || (a == 108 && b == 97) || (a == 108 && b == 98) ||
        (a == 108 && b == 103) || (a == 108 && b == 105) || (a == 108 && b == 110) ||
        (a == 108 && b == 111) || (a == 108 && b == 116) || (a == 108 && b == 117) ||
        (a == 108 && b == 118) || (a == 109 && b == 103) || (a == 109 && b == 104) ||
        (a == 109 && b == 105) || (a == 109 && b == 107) || (a == 109 && b == 108) ||
        (a == 109 && b == 110) || (a == 109 && b == 114) || (a == 109 && b == 115) ||
        (a == 109 && b == 116) || (a == 109 && b == 121) || (a == 110 && b == 97) ||
        (a == 110 && b == 98) || (a == 110 && b == 100) || (a == 110 && b == 101) ||
        (a == 110 && b == 103) || (a == 110 && b == 108) || (a == 110 && b == 110) ||
        (a == 110 && b == 111) || (a == 110 && b == 114) || (a == 110 && b == 118) ||
        (a == 110 && b == 121) || (a == 111 && b == 99) || (a == 111 && b == 106) ||
        (a == 111 && b == 109) || (a == 111 && b == 114) || (a == 111 && b == 115) ||
        (a == 112 && b == 97) || (a == 112 && b == 105) || (a == 112 && b == 108) ||
        (a == 112 && b == 115) || (a == 112 && b == 116) || (a == 113 && b == 117) ||
        (a == 114 && b == 109) || (a == 114 && b == 110) || (a == 114 && b == 111) ||
        (a == 114 && b == 117) || (a == 114 && b == 119) || (a == 115 && b == 97) ||
        (a == 115 && b == 99) || (a == 115 && b == 100) || (a == 115 && b == 101) ||
        (a == 115 && b == 103) || (a == 115 && b == 105) || (a == 115 && b == 107) ||
        (a == 115 && b == 108) || (a == 115 && b == 109) || (a == 115 && b == 110) ||
        (a == 115 && b == 111) || (a == 115 && b == 113) || (a == 115 && b == 114) ||
        (a == 115 && b == 115) || (a == 115 && b == 116) || (a == 115 && b == 117) ||
        (a == 115 && b == 118) || (a == 115 && b == 119) || (a == 116 && b == 97) ||
        (a == 116 && b == 101) || (a == 116 && b == 103) || (a == 116 && b == 104) ||
        (a == 116 && b == 105) || (a == 116 && b == 107) || (a == 116 && b == 108) ||
        (a == 116 && b == 110) || (a == 116 && b == 111) || (a == 116 && b == 114) ||
        (a == 116 && b == 115) || (a == 116 && b == 116) || (a == 116 && b == 119) ||
        (a == 116 && b == 121) || (a == 117 && b == 103) || (a == 117 && b == 107) ||
        (a == 117 && b == 114) || (a == 117 && b == 122) || (a == 118 && b == 101) ||
        (a == 118 && b == 105) || (a == 118 && b == 111) || (a == 119 && b == 97) ||
        (a == 119 && b == 111) || (a == 120 && b == 104) || (a == 121 && b == 105) ||
        (a == 121 && b == 111) || (a == 122 && b == 97) || (a == 122 && b == 104) ||
        (a == 122 && b == 117)
}

fn language_pair(a: u8, b: u8) -> (r: bool)
    ensures
        r == is_language_pair(a, b),
{
        (a == 97 && b == 97) || (a == 97 && b == 98) || (a == 97 && b == 101) ||
        (a == 97 && b == 102) || (a == 97 && b == 107) || (a == 97 && b == 109) ||
        (a == 97 && b == 110) || (a == 97 && b == 114) || (a == 97 && b == 115) ||
        (a == 97 && b == 118) || (a == 97 && b == 121) || (a == 97 && b == 122) ||
        (a == 98 && b == 97) || (a == 98 && b == 101) || (a == 98 && b == 103) ||
        (a == 98 && b == 104) || (a == 98 && b == 105) || (a == 98 && b == 109) ||
        (a == 98 && b == 110) || (a == 98 && b == 111) || (a == 98 && b == 114) ||
        (a == 98 && b == 115) || (a == 99 && b == 97) || (a == 99 && b == 101) ||
        (a == 99 && b == 104) || (a == 99 && b == 111) || (a == 99 && b == 114) ||
        (a == 99 && b == 115) || (a == 99 && b == 117) || (a == 99 && b == 118) ||
        (a == 99 && b == 121) || (a == 100 && b == 97) || (a == 100 && b == 101) ||
        (a == 100 && b == 118) || (a == 100 && b == 122) || (a == 101 && b == 101) ||
        (a == 101 && b == 108) || (a == 101 && b == 110) || (a == 101 && b == 111) ||
        (a == 101 && b == 115) || (a == 101 && b == 116) || (a == 101 && b == 117) ||
        (a == 102 && b == 97) || (a == 102 && b == 102) || (a == 102 && b == 105) ||
        (a == 102 && b == 106) || (a == 102 && b == 111) || (a == 102 && b == 114) ||
        (a == 102 && b == 121) || (a == 103 && b == 97) || (a == 103 && b == 100) ||
        (a == 103 && b == 108) || (a == 103 && b == 110) || (a == 103 && b == 117) ||
        (a == 103 && b == 118) || (a == 104 && b == 97) || (a == 104 && b == 101) ||
        (a == 104 && b == 105) || (a == 104 && b == 111) || (a == 104 && b == 114) ||
        (a == 104 && b == 116) || (a == 104 && b == 117) || (a == 104 && b == 121) ||
        (a == 104 && b == 122) || (a == 105 && b == 97) || (a == 105 && b == 100) ||
        (a == 105 && b == 101) || (a == 105 && b == 103) || (a == 105 && b == 105) ||
        (a == 105 && b == 107) || (a == 105 && b == 111) || (a == 105 && b == 115) ||
        (a == 105 && b == 116) || (a == 105 && b == 117) || (a == 106 && b == 97) ||
        (a == 106 && b == 118) || (a == 107 && b == 97) || (a == 107 && b == 103) ||
        (a == 107 && b == 105) || (a == 107 && b == 106) || (a == 107 && b == 107) ||
        (a == 107 && b == 108) || (a == 107 && b == 109) || (a == 107 && b == 110) ||
        (a == 107 && b == 111) || (a == 107 && b == 114) || (a == 107 && b == 115) ||
        (a == 107 && b == 117) || (a == 107 && b == 118) || (a == 107 && b == 119) ||
        (a == 107 && b == 121) || (a == 108 && b == 97) || (a == 108 && b == 98) ||
        (a == 108 && b == 103) || (a == 108 && b == 105) || (a == 108 && b == 110) ||
        (a == 108 && b == 111) || (a == 108 && b == 116) || (a == 108 && b == 117) ||
        (a == 108 && b == 118) || (a == 109 && b == 103) || (a == 109 && b == 104) ||
        (a == 109 && b == 105) || (a == 109 && b == 107) || (a == 109 && b == 108) ||
        (a == 109 && b == 110) || (a == 109 && b == 114) || (a == 109 && b == 115) ||
        (a == 109 && b == 116) || (a == 109 && b == 121) || (a == 110 && b == 97) ||
        (a == 110 && b == 98) || (a == 110 && b == 100) || (a == 110 && b == 101) ||
        (a == 110 && b == 103) || (a == 110 && b == 108) || (a == 110 && b == 110) ||
        (a == 110 && b == 111) || (a == 110 && b == 114) || (a == 110 && b == 118) ||
        (a == 110 && b == 121) || (a == 111 && b == 99) || (a == 111 && b == 106) ||
        (a == 111 && b == 109) || (a == 111 && b == 114) || (a == 111 && b == 115) ||
        (a == 112 && b == 97) || (a == 112 && b == 105) || (a == 112 && b == 108) ||
        (a == 112 && b == 115) || (a == 112 && b == 116) || (a == 113 && b == 117) ||
        (a == 114 && b == 109) || (a == 114 && b == 110) || (a == 114 && b == 111) ||
        (a == 114 && b == 117) || (a == 114 && b == 119) || (a == 115 && b == 97) ||
        (a == 115 && b == 99) || (a == 115 && b == 100) || (a == 115 && b == 101) ||
        (a == 115 && b == 103) || (a == 115 && b == 105) || (a == 115 && b == 107) ||
        (a == 115 && b == 108) || (a == 115 && b == 109) || (a == 115 && b == 110) ||
        (a == 115 && b == 111) || (a == 115 && b == 113) || (a == 115 && b == 114) ||
        (a == 115 && b == 115) || (a == 115 && b == 116) || (a == 115 && b == 117) ||
        (a == 115 && b == 118) || (a == 115 && b == 119) || (a == 116 && b == 97) ||
        (a == 116 && b == 101) || (a == 116 && b == 103) || (a == 116 && b == 104) ||
        (a == 116 && b == 105) || (a == 116 && b == 107) || (a == 116 && b == 108) ||
        (a == 116 && b == 110) || (a == 116 && b == 111) || (a == 116 && b == 114) ||
        (a == 116 && b == 115) || (a == 116 && b == 116) || (a == 116 && b == 119) ||
        (a == 116 && b == 121) || (a == 117 && b == 103) || (a == 117 && b == 107) ||
        (a == 117 && b == 114) || (a == 117 && b == 122) || (a == 118 && b == 101) ||
        (a == 118 && b == 105) || (a == 118 && b == 111) || (a == 119 && b == 97) ||
        (a == 119 && b == 111) || (a == 120 && b == 104) || (a == 121 && b == 105) ||
        (a == 121 && b == 111) || (a == 122 && b == 97) || (a == 122 && b == 104) ||
        (a == 122 && b == 117)
}

/// A language code is exactly two bytes naming a known language.
pub open spec fn spec_validate_languagecode(s: Seq<u8>) -> bool {
    s.len() == 2 && is_language_pair(s[0], s[1])
}

/// Validate a language code.
pub fn validate_languagecode(language: &Vec<u8>) -> (r: bool)
    ensures
        r == spec_validate_languagecode(language@),
{
    if language.len() != 2 {
        return false;
    }
    language_pair(language[0], language[1])
}

/// A unit-of-measurement system is `ms`, `iu` or `us`.
pub open spec fn spec_validate_unitmeasurement(s: Seq<u8>) -> bool {
    s.len() == 2 && ((s[0] == 109 && s[1] == 115) || (s[0] == 105 && s[1] == 117) || (s[0] == 117
        && s[1] == 115))
}

/// Validate a unit-of-measurement code.
pub fn validate_unitmeasurement(unitmeasurement: &Vec<u8>) -> (r: bool)
    ensures
        r == spec_validate_unitmeasurement(unitmeasurement@),
{
    if unitmeasurement.len() != 2 {
        return false;
    }
    let a = unitmeasurement[0];
    let b = unitmeasurement[1];
    (a == 109 && b == 115) || (a == 105 && b == 117) || (a == 117 && b == 115)
}

} // verus!
