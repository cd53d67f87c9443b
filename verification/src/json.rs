//! Single-pass scanners over byte buffers holding a restricted JSON subset.
//!
//! Every scanner is modelled by a recursive spec function that walks the
//! byte sequence with the same small state the executable loop carries, so
//! each executable function is proved to return exactly the model's value.
//! The scanners track one level of nesting by boolean toggles, not by depth
//! counters: that one-level behaviour is part of the specification, not an
//! accident of the code.

use vstd::prelude::*;

verus! {

pub const QUOTE: u8 = 34;
pub const COMMA: u8 = 44;
pub const COLON: u8 = 58;
pub const LBRACE: u8 = 123;
pub const RBRACE: u8 = 125;
pub const LBRACKET: u8 = 91;
pub const RBRACKET: u8 = 93;
pub const BACKSLASH: u8 = 92;
pub const SPACE: u8 = 32;

// ---------------------------------------------------------------------------
// Structural validator
// ---------------------------------------------------------------------------

/// State carried by the structural scan: `outside_string` is true when the
/// cursor is not inside a quoted string; `colon_seen` is the key/value parity
/// toggle; `braces_ok` / `brackets_ok` are the one-level balance toggles;
/// `prev` is the previous byte, used for escape detection.
pub struct WfState {
    pub outside_string: bool,
    pub colon_seen: bool,
    pub braces_ok: bool,
    pub brackets_ok: bool,
    pub prev: u8,
}

pub open spec fn wf_init() -> WfState {
    WfState {
        outside_string: true,
        colon_seen: true,
        braces_ok: true,
        brackets_ok: true,
        prev: SPACE,
    }
}

/// One step of the structural scan on byte `b`.
pub open spec fn wf_step(st: WfState, b: u8) -> WfState {
    let brackets_ok = if b == LBRACKET && st.outside_string {
        false
    } else if b == RBRACKET && st.outside_string {
        !st.brackets_ok
    } else {
        st.brackets_ok
    };
    let braces_ok = if b == LBRACE && st.outside_string {
        false
    } else if b == RBRACE && st.outside_string {
        !st.braces_ok
    } else {
        st.braces_ok
    };
    if b == QUOTE && st.outside_string && st.prev != BACKSLASH {
        WfState { outside_string: false, colon_seen: false, braces_ok, brackets_ok, prev: b }
    } else if b == COLON && st.outside_string {
        WfState { outside_string: st.outside_string, colon_seen: true, braces_ok, brackets_ok, prev: b }
    } else if b == QUOTE && !st.outside_string && st.prev != BACKSLASH {
        WfState { outside_string: true, colon_seen: true, braces_ok, brackets_ok, prev: b }
    } else {
        WfState { outside_string: st.outside_string, colon_seen: st.colon_seen, braces_ok, brackets_ok, prev: b }
    }
}

/// The scan state after reading the first `n` bytes of `j`.
pub open spec fn wf_scan(j: Seq<u8>, n: int) -> WfState
    decreases n,
{
    if n <= 0 {
        wf_init()
    } else {
        wf_step(wf_scan(j, n - 1), j[n - 1])
    }
}

/// A buffer is well formed when it is at least two bytes long, opens with a
/// brace or bracket that its last byte matches, and the scan ends with the
/// string, colon and bracket toggles all closed.
pub open spec fn spec_is_well_formed(j: Seq<u8>) -> bool {
    &&& j.len() >= 2
    &&& (j[0] == LBRACE || j[0] == LBRACKET)
    &&& (j[0] == LBRACE ==> j[j.len() - 1] == RBRACE)
    &&& (j[0] == LBRACKET ==> j[j.len() - 1] == RBRACKET)
    &&& wf_scan(j, j.len() as int).outside_string
    &&& wf_scan(j, j.len() as int).colon_seen
    &&& wf_scan(j, j.len() as int).brackets_ok
}

/// Structural validator: a single left-to-right scan, no parse tree.
pub fn is_well_formed(j: &Vec<u8>) -> (r: bool)
    ensures
        r == spec_is_well_formed(j@),
{
    if j.len() < 2 {
        return false;
    }
    let first = j[0];
    let last = j[j.len() - 1];
    if first == LBRACE && last != RBRACE {
        return false;
    }
    if first == LBRACKET && last != RBRACKET {
        return false;
    }
    if first != LBRACE && first != LBRACKET {
        return false;
    }
    let mut outside_string = true;
    let mut colon_seen = true;
    let mut braces_ok = true;
    let mut brackets_ok = true;
    let mut prev: u8 = SPACE;
    let mut i: usize = 0;
    while i < j.len()
        invariant
            i <= j.len(),
            outside_string == wf_scan(j@, i as int).outside_string,
            colon_seen == wf_scan(j@, i as int).colon_seen,
            braces_ok == wf_scan(j@, i as int).braces_ok,
            brackets_ok == wf_scan(j@, i as int).brackets_ok,
            prev == wf_scan(j@, i as int).prev,
        decreases j.len() - i,
    {
        let b = j[i];
        proof {
            assert(wf_scan(j@, i + 1) == wf_step(wf_scan(j@, i as int), j@[i as int]));
        }
        if b == LBRACKET && outside_string {
            brackets_ok = false;
        } else if b == RBRACKET && outside_string {
            brackets_ok = !brackets_ok;
        }
        if b == LBRACE && outside_string {
            braces_ok = false;
        } else if b == RBRACE && outside_string {
            braces_ok = !braces_ok;
        }
        if b == QUOTE && outside_string && prev != BACKSLASH {
            outside_string = false;
            colon_seen = false;
            prev = b;
        } else if b == COLON && outside_string {
            colon_seen = true;
            prev = b;
        } else if b == QUOTE && !outside_string && prev != BACKSLASH {
            outside_string = true;
            colon_seen = true;
            prev = b;
        } else {
            prev = b;
        }
        i = i + 1;
    }
    outside_string && colon_seen && brackets_ok
}

// ---------------------------------------------------------------------------
// Key matching
// ---------------------------------------------------------------------------

/// The byte pattern a field key is looked up by: `"key":`.
pub open spec fn key_pattern(key: Seq<u8>) -> Seq<u8> {
    seq![QUOTE] + key + seq![QUOTE, COLON]
}

/// `pat` occurs in `j` starting at position `x`.
pub open spec fn match_at(j: Seq<u8>, pat: Seq<u8>, x: int) -> bool {
    &&& 0 <= x
    &&& x + pat.len() <= j.len()
    &&& j.subrange(x, x + pat.len() as int) == pat
}

/// Position of the first occurrence of `pat` at or after `x`, if any.
/// An empty pattern never occurs; every caller builds `pat` by
/// `key_pattern`, which is at least three bytes long.
pub open spec fn first_match_from(j: Seq<u8>, pat: Seq<u8>, x: int) -> Option<int>
    decreases j.len() - x,
{
    if x < 0 || pat.len() == 0 || x + pat.len() > j.len() {
        None
    } else if match_at(j, pat, x) {
        Some(x)
    } else {
        first_match_from(j, pat, x + 1)
    }
}

/// A found match lies inside the buffer: this bounds the arithmetic of the
/// extractors that scan from just after the matched pattern.
pub proof fn lemma_first_match_bounds(j: Seq<u8>, pat: Seq<u8>, x0: int, x: int)
    requires
        first_match_from(j, pat, x0) == Some(x),
    ensures
        x0 <= x,
        x + pat.len() <= j.len(),
        match_at(j, pat, x),
    decreases j.len() - x0,
{
    if x0 < 0 || pat.len() == 0 || x0 + pat.len() > j.len() {
    } else if match_at(j, pat, x0) {
    } else {
        lemma_first_match_bounds(j, pat, x0 + 1, x);
    }
}

/// Build the `"key":` pattern as a vector.
fn build_key_pattern(key: &Vec<u8>) -> (r: Vec<u8>)
    ensures
        r@ == key_pattern(key@),
{
    let mut k: Vec<u8> = Vec::new();
    k.push(QUOTE);
    let mut xk: usize = 0;
    while xk < key.len()
        invariant
            xk <= key.len(),
            k@ == seq![QUOTE] + key@.subrange(0, xk as int),
        decreases key.len() - xk,
    {
        k.push(key[xk]);
        proof {
            assert(k@ =~= seq![QUOTE] + key@.subrange(0, xk + 1));
        }
        xk = xk + 1;
    }
    k.push(QUOTE);
    k.push(COLON);
    proof {
        assert(key@.subrange(0, key@.len() as int) =~= key@);
        assert(k@ =~= key_pattern(key@));
    }
    k
}

/// Scan `j` for the first occurrence of `pat`.
fn find_pattern(j: &Vec<u8>, pat: &Vec<u8>) -> (r: Option<usize>)
    ensures
        match r {
            Some(x) => first_match_from(j@, pat@, 0) == Some(x as int),
            None => first_match_from(j@, pat@, 0) is None,
        },
{
    let jl = j.len();
    let pl = pat.len();
    let mut x: usize = 0;
    while x < jl
        invariant
            x <= jl,
            jl == j@.len(),
            pl == pat@.len(),
            first_match_from(j@, pat@, 0) == first_match_from(j@, pat@, x as int),
        decreases jl - x,
    {
        if pl == 0 || pl > jl - x {
            return None;
        }
        let mut m: usize = 0;
        while m < pl && j[x + m] == pat[m]
            invariant
                m <= pl,
                x + pl <= jl,
                jl == j@.len(),
                pl == pat@.len(),
                forall|t: int| 0 <= t < m ==> j@[x + t] == pat@[t],
            decreases pl - m,
        {
            m = m + 1;
        }
        if m == pl {
            proof {
                assert(j@.subrange(x as int, x + pl) =~= pat@);
                assert(match_at(j@, pat@, x as int));
            }
            return Some(x);
        }
        proof {
            assert(j@.subrange(x as int, x + pl)[m as int] != pat@[m as int]);
            assert(!match_at(j@, pat@, x as int));
        }
        x = x + 1;
    }
    None
}

// ---------------------------------------------------------------------------
// Scalar field extractor
// ---------------------------------------------------------------------------

/// Bytes collected by the value scan of `get_field` from position `i` up to
/// (never including) position `end`. `prev` is the previous collected byte,
/// `outside_string` is the quote toggle, and `outside_array` is the one-level
/// bracket toggle that lets a comma inside `[...]` pass through.
pub open spec fn field_scan(
    j: Seq<u8>,
    i: int,
    end: int,
    prev: u8,
    outside_string: bool,
    outside_array: bool,
) -> Seq<u8>
    decreases end - i,
{
    if i < 0 || i >= end || end > j.len() {
        Seq::empty()
    } else {
        let v = j[i];
        let oa = if v == LBRACKET && outside_string && outside_array {
            false
        } else if v == RBRACE && outside_string && !outside_array {
            true
        } else {
            outside_array
        };
        if v == COLON && outside_string {
            field_scan(j, i + 1, end, prev, outside_string, oa)
        } else if v == QUOTE && outside_string && prev != BACKSLASH {
            field_scan(j, i + 1, end, prev, false, oa)
        } else if v == QUOTE && !outside_string && prev != BACKSLASH {
            Seq::empty()
        } else if v == RBRACE && outside_string {
            Seq::empty()
        } else if v == RBRACKET && outside_string {
            Seq::empty()
        } else if v == COMMA && outside_string && oa {
            Seq::empty()
        } else {
            seq![v] + field_scan(j, i + 1, end, v, outside_string, oa)
        }
    }
}

/// Value of the first `"key":` occurrence in `j`: the bytes from just after
/// the pattern up to the first terminating delimiter, scanning at most to the
/// next-to-last byte of `j`. Empty when the key does not occur.
pub open spec fn spec_get_field(j: Seq<u8>, key: Seq<u8>) -> Seq<u8> {
    let pat = key_pattern(key);
    match first_match_from(j, pat, 0) {
        Some(x) => field_scan(j, x + pat.len(), j.len() - 1, SPACE, true, true),
        None => Seq::empty(),
    }
}

/// Scalar field extractor: returns the value bytes of the first occurrence
/// of `"key":` in `j`, or an empty vector when the key is absent. The first
/// textual occurrence wins; there is no nesting awareness, and a comma is a
/// terminator only outside a one-level nested `[...]`.
pub fn get_field(j: &Vec<u8>, key: &Vec<u8>) -> (r: Vec<u8>)
    ensures
        r@ == spec_get_field(j@, key@),
{
    let pat = build_key_pattern(key);
    let found = find_pattern(j, &pat);
    let mut result: Vec<u8> = Vec::new();
    let x = match found {
        Some(x) => x,
        None => {
            return result;
        },
    };
    proof {
        lemma_first_match_bounds(j@, pat@, 0, x as int);
    }
    let jl = j.len();
    assert(x + pat@.len() <= jl);
    let start = x + pat.len();
    let end = jl - 1;
    let mut i = start;
    let mut prev: u8 = SPACE;
    let mut outside_string = true;
    let mut outside_array = true;
    while i < end
        invariant_except_break
            start <= i,
            end == j@.len() - 1,
            field_scan(j@, start as int, end as int, SPACE, true, true) == result@ + field_scan(
                j@,
                i as int,
                end as int,
                prev,
                outside_string,
                outside_array,
            ),
        ensures
            result@ == field_scan(j@, start as int, end as int, SPACE, true, true),
        decreases end - i,
    {
        let ghost full = field_scan(j@, start as int, end as int, SPACE, true, true);
        let ghost prev0 = prev;
        let ghost os0 = outside_string;
        let ghost oa0 = outside_array;
        let v = j[i];
        if v == LBRACKET && outside_string && outside_array {
            outside_array = false;
        } else if v == RBRACE && outside_string && !outside_array {
            outside_array = true;
        }
        if v == COLON && outside_string {
            proof {
                assert(field_scan(j@, i as int, end as int, prev0, os0, oa0) == field_scan(
                    j@,
                    i + 1,
                    end as int,
                    prev0,
                    os0,
                    outside_array,
                ));
            }
            i = i + 1;
            continue ;
        }
        if v == QUOTE && outside_string && prev != BACKSLASH {
            proof {
                assert(field_scan(j@, i as int, end as int, prev0, os0, oa0) == field_scan(
                    j@,
                    i + 1,
                    end as int,
                    prev0,
                    false,
                    outside_array,
                ));
            }
            outside_string = false;
            i = i + 1;
            continue ;
        }
        let stop = (v == QUOTE && !outside_string && prev != BACKSLASH) || (v == RBRACE
            && outside_string) || (v == RBRACKET && outside_string) || (v == COMMA
            && outside_string && outside_array);
        if stop {
            proof {
                assert(field_scan(j@, i as int, end as int, prev0, os0, oa0) =~= Seq::<
                    u8,
                >::empty());
                assert(result@ + Seq::<u8>::empty() =~= result@);
            }
            break ;
        }
        result.push(v);
        proof {
            assert(field_scan(j@, i as int, end as int, prev0, os0, oa0) == seq![v] + field_scan(
                j@,
                i + 1,
                end as int,
                v,
                os0,
                outside_array,
            ));
            assert(result@ + field_scan(j@, i + 1, end as int, v, os0, outside_array)
                =~= result@.drop_last() + (seq![v] + field_scan(
                j@,
                i + 1,
                end as int,
                v,
                os0,
                outside_array,
            )));
        }
        prev = v;
        i = i + 1;
    }
    proof {
        assert(result@ + Seq::<u8>::empty() =~= result@);
    }
    result
}

// ---------------------------------------------------------------------------
// Complex array/object field extractor
// ---------------------------------------------------------------------------

/// Position of the `[` that opens the bracketed value: the first `[` at or
/// after `i`, unless a value terminator (`"`, `,`, `}`, `]`) or the scan's
/// end comes first, in which case no array value follows and nothing is
/// captured.
pub open spec fn complex_value_start(j: Seq<u8>, i: int, end: int) -> Option<int>
    decreases end - i,
{
    if i < 0 || i >= end || end > j.len() {
        None
    } else if j[i] == LBRACKET {
        Some(i)
    } else if j[i] == QUOTE || j[i] == COMMA || j[i] == RBRACE || j[i] == RBRACKET {
        None
    } else {
        complex_value_start(j, i + 1, end)
    }
}

/// Bytes collected by the capture scan of `get_complex_field`: every byte is
/// taken, and the scan stops just after the first `]` seen once a `[` has
/// opened the one-level array state.
pub open spec fn complex_scan(j: Seq<u8>, i: int, end: int, outside_array: bool) -> Seq<u8>
    decreases end - i,
{
    if i < 0 || i >= end || end > j.len() {
        Seq::empty()
    } else {
        let v = j[i];
        let oa = if v == LBRACKET && outside_array {
            false
        } else {
            outside_array
        };
        if v == RBRACKET && !oa {
            seq![v]
        } else {
            seq![v] + complex_scan(j, i + 1, end, oa)
        }
    }
}

/// The bracketed value of the first `"key":` occurrence in `j`: from the
/// first `[` after the pattern through the first `]` that closes a one-level
/// `[`, scanning at most to the next-to-last byte of `j`. Empty when the key
/// is absent or no `[` follows the match before a terminating context.
pub open spec fn spec_get_complex_field(j: Seq<u8>, key: Seq<u8>) -> Seq<u8> {
    let pat = key_pattern(key);
    match first_match_from(j, pat, 0) {
        Some(x) => match complex_value_start(j, x + pat.len(), j.len() - 1) {
            Some(b) => complex_scan(j, b, j.len() - 1, true),
            None => Seq::empty(),
        },
        None => Seq::empty(),
    }
}

/// Scan for the `[` that opens a bracketed value, giving up at a value
/// terminator or at `end`.
fn find_complex_start(j: &Vec<u8>, start: usize, end: usize) -> (r: Option<usize>)
    requires
        end <= j@.len(),
    ensures
        match r {
            Some(b) => complex_value_start(j@, start as int, end as int) == Some(b as int)
                && start <= b < end,
            None => complex_value_start(j@, start as int, end as int) is None,
        },
{
    let mut i = start;
    while i < end
        invariant
            start <= i,
            end <= j@.len(),
            complex_value_start(j@, start as int, end as int) == complex_value_start(
                j@,
                i as int,
                end as int,
            ),
        decreases end - i,
    {
        let v = j[i];
        if v == LBRACKET {
            return Some(i);
        }
        if v == QUOTE || v == COMMA || v == RBRACE || v == RBRACKET {
            return None;
        }
        i = i + 1;
    }
    None
}

/// Complex field extractor: returns the `[...]`-shaped value of the first
/// occurrence of `"key":` in `j` including the outer brackets. The capture
/// begins at the first `[` after the key; the result is empty when the key
/// is absent, or when a value terminator (`"`, `,`, `}`, `]`) or the end of
/// the scan comes before any `[`. Only one level of bracket nesting is
/// balanced correctly.
pub fn get_complex_field(j: &Vec<u8>, key: &Vec<u8>) -> (r: Vec<u8>)
    ensures
        r@ == spec_get_complex_field(j@, key@),
{
    let pat = build_key_pattern(key);
    let found = find_pattern(j, &pat);
    let mut result: Vec<u8> = Vec::new();
    let x = match found {
        Some(x) => x,
        None => {
            return result;
        },
    };
    proof {
        lemma_first_match_bounds(j@, pat@, 0, x as int);
    }
    let jl = j.len();
    assert(x + pat@.len() <= jl);
    let end = jl - 1;
    let start = match find_complex_start(j, x + pat.len(), end) {
        Some(b) => b,
        None => {
            return result;
        },
    };
    let mut i = start;
    let mut outside_array = true;
    while i < end
        invariant_except_break
            start <= i,
            end == j@.len() - 1,
            complex_scan(j@, start as int, end as int, true) == result@ + complex_scan(
                j@,
                i as int,
                end as int,
                outside_array,
            ),
        ensures
            result@ == complex_scan(j@, start as int, end as int, true),
        decreases end - i,
    {
        let ghost oa0 = outside_array;
        let v = j[i];
        if v == LBRACKET && outside_array {
            outside_array = false;
        }
        if v == RBRACKET && !outside_array {
            result.push(v);
            proof {
                assert(complex_scan(j@, i as int, end as int, oa0) == seq![v]);
                assert(result@ =~= result@.drop_last() + seq![v]);
            }
            break ;
        }
        result.push(v);
        proof {
            assert(complex_scan(j@, i as int, end as int, oa0) == seq![v] + complex_scan(
                j@,
                i + 1,
                end as int,
                outside_array,
            ));
            assert(result@ + complex_scan(j@, i + 1, end as int, outside_array)
                =~= result@.drop_last() + (seq![v] + complex_scan(
                j@,
                i + 1,
                end as int,
                outside_array,
            )));
        }
        i = i + 1;
    }
    proof {
        assert(result@ + Seq::<u8>::empty() =~= result@);
    }
    result
}

// ---------------------------------------------------------------------------
// Array and record iteration
// ---------------------------------------------------------------------------

/// Bytes of the element at top-level position `p` of a scalar-array buffer,
/// scanning from `i` with `count` separators already seen. Top-level commas
/// separate elements; unescaped quotes toggle `outside_string`, so a comma
/// inside a quoted string never separates; top-level brackets and the quotes
/// themselves are not collected.
pub open spec fn array_item_scan(
    ar: Seq<u8>,
    i: int,
    count: int,
    p: int,
    outside_string: bool,
    prev: u8,
) -> Seq<u8>
    decreases ar.len() - i,
{
    if i < 0 || i >= ar.len() {
        Seq::empty()
    } else {
        let b = ar[i];
        if b == COMMA && outside_string {
            array_item_scan(ar, i + 1, count + 1, p, outside_string, prev)
        } else if (b == LBRACKET || b == RBRACKET) && outside_string && prev != BACKSLASH {
            array_item_scan(ar, i + 1, count, p, outside_string, prev)
        } else if b == QUOTE && outside_string && prev != BACKSLASH {
            array_item_scan(ar, i + 1, count, p, false, b)
        } else if b == QUOTE && !outside_string && prev != BACKSLASH {
            array_item_scan(ar, i + 1, count, p, true, b)
        } else if count == p {
            seq![b] + array_item_scan(ar, i + 1, count, p, outside_string, b)
        } else {
            array_item_scan(ar, i + 1, count, p, outside_string, b)
        }
    }
}

pub open spec fn spec_get_array_element(ar: Seq<u8>, p: int) -> Seq<u8> {
    array_item_scan(ar, 0, 0, p, true, SPACE)
}

/// Bytes of the record at top-level position `p` of a record-array buffer.
/// Unescaped braces toggle `inside` a record; commas outside any record
/// separate elements, and braces themselves are collected.
pub open spec fn record_item_scan(
    ar: Seq<u8>,
    i: int,
    count: int,
    p: int,
    outside_record: bool,
    prev: u8,
) -> Seq<u8>
    decreases ar.len() - i,
{
    if i < 0 || i >= ar.len() {
        Seq::empty()
    } else {
        let b = ar[i];
        if b == COMMA && outside_record {
            record_item_scan(ar, i + 1, count + 1, p, outside_record, prev)
        } else if (b == LBRACKET || b == RBRACKET) && outside_record && prev != BACKSLASH {
            record_item_scan(ar, i + 1, count, p, outside_record, prev)
        } else {
            let or1 = if b == LBRACE && outside_record && prev != BACKSLASH {
                false
            } else if b == RBRACE && !outside_record && prev != BACKSLASH {
                true
            } else {
                outside_record
            };
            if count == p {
                seq![b] + record_item_scan(ar, i + 1, count, p, or1, b)
            } else {
                record_item_scan(ar, i + 1, count, p, or1, b)
            }
        }
    }
}

pub open spec fn spec_get_record_element(ar: Seq<u8>, p: int) -> Seq<u8> {
    record_item_scan(ar, 0, 0, p, true, SPACE)
}

/// A nonempty element demands `p - count` further separators and one content
/// byte, so a position at or past the buffer length always yields the empty
/// sequence: the termination signal for callers that iterate by index.
pub proof fn lemma_array_item_scan_bound(
    ar: Seq<u8>,
    i: int,
    count: int,
    p: int,
    outside_string: bool,
    prev: u8,
)
    ensures
        array_item_scan(ar, i, count, p, outside_string, prev).len() > 0 ==> p - count < ar.len()
            - i,
    decreases ar.len() - i,
{
    if i < 0 || i >= ar.len() {
    } else {
        let b = ar[i];
        lemma_array_item_scan_bound(ar, i + 1, count + 1, p, outside_string, prev);
        lemma_array_item_scan_bound(ar, i + 1, count, p, outside_string, prev);
        lemma_array_item_scan_bound(ar, i + 1, count, p, false, b);
        lemma_array_item_scan_bound(ar, i + 1, count, p, true, b);
        lemma_array_item_scan_bound(ar, i + 1, count, p, outside_string, b);
    }
}

/// The record variant of the same bound.
pub proof fn lemma_record_item_scan_bound(
    ar: Seq<u8>,
    i: int,
    count: int,
    p: int,
    outside_record: bool,
    prev: u8,
)
    ensures
        record_item_scan(ar, i, count, p, outside_record, prev).len() > 0 ==> p - count < ar.len()
            - i,
    decreases ar.len() - i,
{
    if i < 0 || i >= ar.len() {
    } else {
        let b = ar[i];
        lemma_record_item_scan_bound(ar, i + 1, count + 1, p, outside_record, prev);
        lemma_record_item_scan_bound(ar, i + 1, count, p, outside_record, prev);
        lemma_record_item_scan_bound(ar, i + 1, count, p, false, b);
        lemma_record_item_scan_bound(ar, i + 1, count, p, true, b);
        lemma_record_item_scan_bound(ar, i + 1, count, p, outside_record, b);
    }
}

/// Iteration by increasing index always terminates: any index at or past the
/// buffer length returns the empty element.
pub proof fn lemma_iteration_terminates(ar: Seq<u8>, p: int)
    requires
        p >= ar.len(),
    ensures
        spec_get_array_element(ar, p) == Seq::<u8>::empty(),
        spec_get_record_element(ar, p) == Seq::<u8>::empty(),
{
    lemma_array_item_scan_bound(ar, 0, 0, p, true, SPACE);
    lemma_record_item_scan_bound(ar, 0, 0, p, true, SPACE);
    assert(spec_get_array_element(ar, p).len() == 0);
    assert(spec_get_record_element(ar, p).len() == 0);
    assert(spec_get_array_element(ar, p) =~= Seq::<u8>::empty());
    assert(spec_get_record_element(ar, p) =~= Seq::<u8>::empty());
}

/// Element at top-level position `p` of a scalar-array buffer such as
/// `[1,2,3]` or `["x,y","z"]`. Quotes and top-level brackets are dropped, a
/// comma inside a quoted string does not separate, and an index past the last
/// element yields an empty vector.
pub fn get_array_element(ar: &Vec<u8>, p: usize) -> (r: Vec<u8>)
    ensures
        r@ == spec_get_array_element(ar@, p as int),
{
    let mut result: Vec<u8> = Vec::new();
    let mut outside_string = true;
    let mut count: usize = 0;
    let mut prev: u8 = SPACE;
    let mut i: usize = 0;
    while i < ar.len()
        invariant
            i <= ar.len(),
            count <= i,
            spec_get_array_element(ar@, p as int) == result@ + array_item_scan(
                ar@,
                i as int,
                count as int,
                p as int,
                outside_string,
                prev,
            ),
        decreases ar.len() - i,
    {
        let ghost os0 = outside_string;
        let ghost prev0 = prev;
        let b = ar[i];
        proof {
            assert(array_item_scan(ar@, i as int, count as int, p as int, os0, prev0) == {
                let bb = ar@[i as int];
                if bb == COMMA && os0 {
                    array_item_scan(ar@, i + 1, count + 1, p as int, os0, prev0)
                } else if (bb == LBRACKET || bb == RBRACKET) && os0 && prev0 != BACKSLASH {
                    array_item_scan(ar@, i + 1, count as int, p as int, os0, prev0)
                } else if bb == QUOTE && os0 && prev0 != BACKSLASH {
                    array_item_scan(ar@, i + 1, count as int, p as int, false, bb)
                } else if bb == QUOTE && !os0 && prev0 != BACKSLASH {
                    array_item_scan(ar@, i + 1, count as int, p as int, true, bb)
                } else if count == p {
                    seq![bb] + array_item_scan(ar@, i + 1, count as int, p as int, os0, bb)
                } else {
                    array_item_scan(ar@, i + 1, count as int, p as int, os0, bb)
                }
            });
        }
        if b == COMMA && outside_string {
            count = count + 1;
        } else if (b == LBRACKET || b == RBRACKET) && outside_string && prev != BACKSLASH {
        } else if b == QUOTE && outside_string && prev != BACKSLASH {
            outside_string = false;
            prev = b;
        } else if b == QUOTE && !outside_string && prev != BACKSLASH {
            outside_string = true;
            prev = b;
        } else {
            if count == p {
                result.push(b);
                proof {
                    assert(result@ + array_item_scan(
                        ar@,
                        i + 1,
                        count as int,
                        p as int,
                        outside_string,
                        b,
                    ) =~= result@.drop_last() + (seq![b] + array_item_scan(
                        ar@,
                        i + 1,
                        count as int,
                        p as int,
                        outside_string,
                        b,
                    )));
                }
            }
            prev = b;
        }
        i = i + 1;
    }
    proof {
        assert(result@ + Seq::<u8>::empty() =~= result@);
    }
    result
}

/// Record at top-level position `p` of a record-array buffer such as
/// `[{"a":1},{"a":3}]`, braces included. Commas inside a record do not
/// separate, and an index past the last record yields an empty vector.
pub fn get_record_element(ar: &Vec<u8>, p: usize) -> (r: Vec<u8>)
    ensures
        r@ == spec_get_record_element(ar@, p as int),
{
    let mut result: Vec<u8> = Vec::new();
    let mut outside_record = true;
    let mut count: usize = 0;
    let mut prev: u8 = SPACE;
    let mut i: usize = 0;
    while i < ar.len()
        invariant
            i <= ar.len(),
            count <= i,
            spec_get_record_element(ar@, p as int) == result@ + record_item_scan(
                ar@,
                i as int,
                count as int,
                p as int,
                outside_record,
                prev,
            ),
        decreases ar.len() - i,
    {
        let ghost or0 = outside_record;
        let ghost prev0 = prev;
        let b = ar[i];
        proof {
            assert(record_item_scan(ar@, i as int, count as int, p as int, or0, prev0) == {
                let bb = ar@[i as int];
                if bb == COMMA && or0 {
                    record_item_scan(ar@, i + 1, count + 1, p as int, or0, prev0)
                } else if (bb == LBRACKET || bb == RBRACKET) && or0 && prev0 != BACKSLASH {
                    record_item_scan(ar@, i + 1, count as int, p as int, or0, prev0)
                } else {
                    let or1 = if bb == LBRACE && or0 && prev0 != BACKSLASH {
                        false
                    } else if bb == RBRACE && !or0 && prev0 != BACKSLASH {
                        true
                    } else {
                        or0
                    };
                    if count == p {
                        seq![bb] + record_item_scan(ar@, i + 1, count as int, p as int, or1, bb)
                    } else {
                        record_item_scan(ar@, i + 1, count as int, p as int, or1, bb)
                    }
                }
            });
        }
        if b == COMMA && outside_record {
            count = count + 1;
        } else if (b == LBRACKET || b == RBRACKET) && outside_record && prev != BACKSLASH {
        } else {
            if b == LBRACE && outside_record && prev != BACKSLASH {
                outside_record = false;
            } else if b == RBRACE && !outside_record && prev != BACKSLASH {
                outside_record = true;
            }
            if count == p {
                result.push(b);
                proof {
                    assert(result@ + record_item_scan(
                        ar@,
                        i + 1,
                        count as int,
                        p as int,
                        outside_record,
                        b,
                    ) =~= result@.drop_last() + (seq![b] + record_item_scan(
                        ar@,
                        i + 1,
                        count as int,
                        p as int,
                        outside_record,
                        b,
                    )));
                }
            }
            prev = b;
        }
        i = i + 1;
    }
    proof {
        assert(result@ + Seq::<u8>::empty() =~= result@);
    }
    result
}

// ---------------------------------------------------------------------------
// Laws
// ---------------------------------------------------------------------------

/// The validator is deterministic and referentially transparent: its result
/// is a function of the input bytes alone, so equal inputs always give equal
/// results. (`is_well_formed` returns exactly `spec_is_well_formed` of its
/// input, which this lemma relates for two equal inputs.)
pub proof fn lemma_is_well_formed_deterministic(a: Seq<u8>, b: Seq<u8>)
    requires
        a == b,
    ensures
        spec_is_well_formed(a) == spec_is_well_formed(b),
{
}

pub open spec fn is_alphanumeric_byte(b: u8) -> bool {
    (48 <= b <= 57) || (65 <= b <= 90) || (97 <= b <= 122)
}

/// The flat one-field object `{"k":"v"}`.
pub open spec fn simple_object(k: Seq<u8>, v: Seq<u8>) -> Seq<u8> {
    seq![LBRACE, QUOTE] + k + seq![QUOTE, COLON, QUOTE] + v + seq![QUOTE, RBRACE]
}

/// A quoted value of plain bytes is collected whole: scanning inside a
/// string, every byte before the closing quote is taken and the closing
/// quote stops the scan.
proof fn lemma_quoted_value_scan(j: Seq<u8>, i: int, m: int, end: int, prev: u8, oa: bool)
    requires
        0 <= i <= m < end <= j.len(),
        j[m] == QUOTE,
        forall|t: int| i <= t < m ==> j[t] != QUOTE && j[t] != BACKSLASH,
        i == m ==> prev != BACKSLASH,
    ensures
        field_scan(j, i, end, prev, false, oa) =~= j.subrange(i, m),
    decreases m - i,
{
    if i == m {
        assert(field_scan(j, i, end, prev, false, oa) =~= Seq::<u8>::empty());
    } else {
        lemma_quoted_value_scan(j, i + 1, m, end, j[i], oa);
        assert(j.subrange(i, m) =~= seq![j[i]] + j.subrange(i + 1, m));
    }
}

/// Round trip on a simple flat object: for any alphanumeric key `k` and
/// alphanumeric value `v`, extracting `k` from `{"k":"v"}` returns `v`.
pub proof fn lemma_get_field_round_trip(k: Seq<u8>, v: Seq<u8>)
    requires
        forall|i: int| 0 <= i < k.len() ==> is_alphanumeric_byte(k[i]),
        forall|i: int| 0 <= i < v.len() ==> is_alphanumeric_byte(v[i]),
    ensures
        spec_get_field(simple_object(k, v), k) =~= v,
{
    let j = simple_object(k, v);
    let pat = key_pattern(k);
    let kl = k.len() as int;
    let vl = v.len() as int;
    assert(pat.len() == kl + 3);
    assert(j.len() == kl + vl + 7);
    // the pattern occurs at position 1 and not at position 0
    assert(j.subrange(1, 1 + pat.len() as int) =~= pat);
    assert(match_at(j, pat, 1));
    assert(j[0] == LBRACE && pat[0] == QUOTE);
    assert(j.subrange(0, pat.len() as int)[0] != pat[0]);
    assert(j.subrange(0, pat.len() as int) != pat);
    assert(!match_at(j, pat, 0));
    assert(first_match_from(j, pat, 0) == first_match_from(j, pat, 1));
    assert(first_match_from(j, pat, 1) == Some(1int));
    // the value scan opens the quote, then collects v up to the closing quote
    let start = 1 + pat.len() as int;
    let end = j.len() - 1;
    assert(j[start] == QUOTE);
    assert(field_scan(j, start, end, SPACE, true, true) == field_scan(
        j,
        start + 1,
        end,
        SPACE,
        false,
        true,
    ));
    assert(j[start + 1 + vl] == QUOTE);
    assert(forall|t: int|
        start + 1 <= t < start + 1 + vl ==> j[t] == v[t - (start + 1)] && j[t] != QUOTE && j[t]
            != BACKSLASH);
    lemma_quoted_value_scan(j, start + 1, start + 1 + vl, end, SPACE, true);
    assert(j.subrange(start + 1, start + 1 + vl) =~= v);
}

/// No panic, and the documented "not found" signal, on adversarial short
/// input: too-short buffers are never well formed, a key pattern longer than
/// the buffer extracts nothing, and iterating an empty buffer yields the
/// empty element at every index. (Freedom from panics on every other input
/// is part of each function's verification.)
pub proof fn lemma_adversarial_input_safe(j: Seq<u8>, key: Seq<u8>, p: int)
    ensures
        j.len() < 2 ==> !spec_is_well_formed(j),
        key.len() + 3 > j.len() ==> spec_get_field(j, key) == Seq::<u8>::empty(),
        key.len() + 3 > j.len() ==> spec_get_complex_field(j, key) == Seq::<u8>::empty(),
        j.len() == 0 ==> spec_get_array_element(j, p) == Seq::<u8>::empty(),
        j.len() == 0 ==> spec_get_record_element(j, p) == Seq::<u8>::empty(),
{
    assert(key_pattern(key).len() == key.len() + 3);
    if key.len() + 3 > j.len() {
        assert(first_match_from(j, key_pattern(key), 0) is None);
    }
}

} // verus!
