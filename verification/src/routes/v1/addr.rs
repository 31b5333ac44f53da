//! Network addresses of bulk and range requests: checks, lower-casing and the expansion of a
//! range of hexadecimal addresses.

use vstd::prelude::*;
use vstd::string::*;

use crate::corelib::{
    addr_format_error, addr_width, all_hex, hex_addr_ok, hex_addr_to_u128, hex_addr_value,
    hex_char, hex_digit_value, hex_digits, hex_value, lowercase, to_lowercase, u128_to_addr,
};
use crate::models::strs;
use vstd::arithmetic::power::pow;
use crate::routes::{param_err, ApiError, ErrView};

verus! {

/// The largest number of addresses of one bulk or range request.
pub const BULK_MAX: usize = 1024;

/// The text of the parameter error for an empty address list.
pub open spec fn addrs_empty_msg() -> Seq<char> {
    "`networkAddrs` must with at least one address"@
}

/// The text of the parameter error for too many addresses.
pub open spec fn addrs_max_msg() -> Seq<char> {
    "`networkAddrs` cannot more than 1024"@
}

/// The text of the parameter error for an empty address in a list.
pub open spec fn addr_item_msg() -> Seq<char> {
    "`networkAddrs` must be non-empty address array"@
}

/// The text of the parameter error for range ends of different lengths.
pub open spec fn range_len_msg() -> Seq<char> {
    "`startAddr` and `endAddr` must have the same length"@
}

/// The text of the parameter error for a range that ends before it starts.
pub open spec fn range_order_msg() -> Seq<char> {
    "`startAddr` cannot larger than `endAddr`"@
}

/// The text of the parameter error for a range of too many addresses.
pub open spec fn range_max_msg() -> Seq<char> {
    "numbers between `startAddr` and `endAddr` cannot more than 1024"@
}

/// Checks the number of addresses of a bulk request: at least one, at most [`BULK_MAX`].
pub fn check_addrs_count(addrs: &Vec<String>) -> (r: Result<(), ApiError>)
    ensures
        addrs.len() == 0 ==> (r matches Err(e) && e@ == ErrView::Param(addrs_empty_msg())),
        addrs.len() > BULK_MAX ==> (r matches Err(e) && e@ == ErrView::Param(addrs_max_msg())),
        0 < addrs.len() <= BULK_MAX ==> r is Ok,
{
    if addrs.len() == 0 {
        return Err(param_err("`networkAddrs` must with at least one address"));
    }
    if addrs.len() > BULK_MAX {
        return Err(param_err("`networkAddrs` cannot more than 1024"));
    }
    Ok(())
}

/// The addresses of a bulk request, lower-cased, or the parameter error when one is empty.
pub fn lower_addrs(addrs: &Vec<String>) -> (r: Result<Vec<String>, ApiError>)
    ensures
        (exists|i: int| 0 <= i < addrs.len() && (#[trigger] addrs@[i])@.len() == 0) ==> (r matches Err(e)
            && e@ == ErrView::Param(addr_item_msg())),
        (forall|i: int| 0 <= i < addrs.len() ==> (#[trigger] addrs@[i])@.len() > 0) ==> (r matches Ok(v)
            && strs(v@) == strs(addrs@).map_values(|a: Seq<char>| lowercase(a))),
{
    let mut v: Vec<String> = Vec::new();
    let mut i: usize = 0;
    while i < addrs.len()
        invariant
            i <= addrs.len(),
            forall|k: int| 0 <= k < i ==> (#[trigger] addrs@[k])@.len() > 0,
            strs(v@) == strs(addrs@).take(i as int).map_values(|a: Seq<char>| lowercase(a)),
        decreases addrs.len() - i,
    {
        if addrs[i].as_str().is_empty() {
            return Err(param_err("`networkAddrs` must be non-empty address array"));
        }
        let ghost prev = v@;
        let l = to_lowercase(addrs[i].as_str());
        v.push(l);
        proof {
            assert(strs(v@) =~= strs(prev).push(lowercase(addrs@[i as int]@)));
            assert(strs(addrs@).take(i + 1) =~= strs(addrs@).take(i as int).push(addrs@[i as int]@));
            assert(strs(addrs@).take(i + 1).map_values(|a: Seq<char>| lowercase(a)) =~= strs(
                addrs@,
            ).take(i as int).map_values(|a: Seq<char>| lowercase(a)).push(
                lowercase(addrs@[i as int]@),
            ));
        }
        i += 1;
    }
    proof {
        assert(strs(addrs@).take(addrs.len() as int) =~= strs(addrs@));
    }
    Ok(v)
}

/// The length of a text in bytes (of its UTF-8 encoding), as `str::len` gives it.
pub open spec fn byte_len(s: Seq<char>) -> usize {
    vstd::utf8::encode_utf8(s).len() as usize
}

/// Checks that the two ends of a range have the same length in bytes.
pub fn check_range_len(start_addr: &str, end_addr: &str) -> (r: Result<(), ApiError>)
    ensures
        byte_len(start_addr@) != byte_len(end_addr@) ==> (r matches Err(e) && e@ == ErrView::Param(
            range_len_msg(),
        )),
        byte_len(start_addr@) == byte_len(end_addr@) ==> r is Ok,
{
    if start_addr.len() != end_addr.len() {
        return Err(param_err("`startAddr` and `endAddr` must have the same length"));
    }
    Ok(())
}

/// The checks of the two ends of a range, in order: each must be a hexadecimal address, the
/// start must not be after the end, and the range must hold at most [`BULK_MAX`] addresses.
pub open spec fn range_spec(start: Seq<char>, end: Seq<char>) -> Result<(nat, nat), ErrView> {
    if !hex_addr_ok(start) || !hex_addr_ok(end) {
        Err(ErrView::Param(addr_format_error()))
    } else if hex_addr_value(start) > hex_addr_value(end) {
        Err(ErrView::Param(range_order_msg()))
    } else if hex_addr_value(end) - hex_addr_value(start) >= BULK_MAX {
        Err(ErrView::Param(range_max_msg()))
    } else {
        Ok((hex_addr_value(start), hex_addr_value(end)))
    }
}

/// Parses the two ends of a range and checks them (see [`range_spec`]).
pub fn check_addr_range(start_addr: &str, end_addr: &str) -> (r: Result<(u128, u128), ApiError>)
    ensures
        match range_spec(start_addr@, end_addr@) {
            Ok(p) => r matches Ok(q) && q.0 as nat == p.0 && q.1 as nat == p.1,
            Err(ev) => r matches Err(e) && e@ == ev,
        },
{
    let start = match hex_addr_to_u128(start_addr) {
        Err(e) => return Err(ApiError::Param(e)),
        Ok(v) => v,
    };
    let end = match hex_addr_to_u128(end_addr) {
        Err(e) => return Err(ApiError::Param(e)),
        Ok(v) => v,
    };
    if start > end {
        return Err(param_err("`startAddr` cannot larger than `endAddr`"));
    }
    if end - start >= 1024 {
        return Err(param_err("numbers between `startAddr` and `endAddr` cannot more than 1024"));
    }
    Ok((start, end))
}

/// The addresses of a range, each written with the digits that `u128_to_addr` writes for the
/// length `len`.
pub open spec fn range_addrs(start: nat, end: nat, len: nat) -> Seq<Seq<char>> {
    Seq::new((end + 1 - start) as nat, |i: int| hex_digits((start + i) as nat, addr_width(len)))
}

/// The addresses from `start` to `end`, both included, as `u128_to_addr` writes them for the
/// length `len` (the length of the range's ends).
pub fn expand_addr_range(start: u128, end: u128, len: usize) -> (r: Vec<String>)
    requires
        start <= end,
        end - start < BULK_MAX,
    ensures
        strs(r@) == range_addrs(start as nat, end as nat, len as nat),
{
    let n: usize = (end - start) as usize + 1;
    let mut r: Vec<String> = Vec::new();
    let mut i: usize = 0;
    while i < n
        invariant
            i <= n,
            n == end - start + 1,
            start <= end,
            strs(r@) == Seq::new(
                i as nat,
                |k: int| hex_digits((start + k) as nat, addr_width(len as nat)),
            ),
        decreases n - i,
    {
        let a: u128 = start + i as u128;
        let s = u128_to_addr(a, len);
        let ghost prev = r@;
        r.push(s);
        proof {
            assert(r@ == prev.push(s));
            assert(strs(r@) =~= strs(prev).push(s@));
            assert(a as nat == (start + i) as nat);
            assert(strs(r@) =~= Seq::new(
                (i + 1) as nat,
                |k: int| hex_digits((start + k) as nat, addr_width(len as nat)),
            ));
        }
        i += 1;
    }
    proof {
        assert(strs(r@) =~= range_addrs(start as nat, end as nat, len as nat));
    }
    r
}

/// A hexadecimal digit written back is the digit in lower case.
pub proof fn lemma_hex_char(c: char)
    requires
        hex_digit_value(c) >= 0,
    ensures
        hex_char(hex_digit_value(c) as nat) == (if 'A' <= c && c <= 'F' {
            ((c as int) + 32) as char
        } else {
            c
        }),
{
}

/// The ASCII lower case of a character.
pub open spec fn ascii_lower(c: char) -> char {
    if 'A' <= c && c <= 'Z' {
        ((c as int) + 32) as char
    } else {
        c
    }
}

/// The hexadecimal digits of a string's value, as many as the string has, are the string
/// in lower case: a parsed address written back with its own length gives it back.
pub proof fn lemma_hex_round_trip(s: Seq<char>)
    requires
        all_hex(s),
    ensures
        hex_digits(hex_value(s), s.len()) == s.map_values(|c: char| ascii_lower(c)),
    decreases s.len(),
{
    if s.len() > 0 {
        let p = s.drop_last();
        assert(all_hex(p)) by {
            assert forall|i: int| 0 <= i < p.len() implies hex_digit_value(#[trigger] p[i]) >= 0 by {
                assert(p[i] == s[i]);
            }
        }
        lemma_hex_round_trip(p);
        let d = hex_digit_value(s.last());
        assert(hex_digit_value(s[s.len() - 1]) >= 0);
        let v = hex_value(p);
        assert((v * 16 + d) / 16 == v && (v * 16 + d) % 16 == d) by (nonlinear_arith)
            requires
                0 <= d < 16,
        ;
        lemma_hex_char(s.last());
        assert(s.map_values(|c: char| ascii_lower(c)) =~= p.map_values(|c: char| ascii_lower(c)).push(
            ascii_lower(s.last()),
        ));
    } else {
        assert(s.map_values(|c: char| ascii_lower(c)) =~= Seq::<char>::empty());
    }
}

/// The expansion of an accepted range of addresses without `+`: as many addresses as the
/// range holds, the first is the start in lower case and the last the end in lower case,
/// every one has the length of the ends, and they strictly increase.
pub proof fn lemma_range_ends(start: Seq<char>, end: Seq<char>)
    requires
        start.len() == end.len(),
        range_spec(start, end) is Ok,
        all_hex(start),
        all_hex(end),
    ensures
        ({
            let r = range_addrs(hex_value(start), hex_value(end), start.len());
            &&& r.len() == hex_value(end) - hex_value(start) + 1
            &&& r[0] == start.map_values(|c: char| ascii_lower(c))
            &&& r[r.len() - 1] == end.map_values(|c: char| ascii_lower(c))
            &&& forall|i: int| 0 <= i < r.len() ==> (#[trigger] r[i]).len() == start.len()
        }),
{
    let w = start.len();
    assert(addr_width(w) == w);
    lemma_hex_round_trip(start);
    lemma_hex_round_trip(end);
    let r = range_addrs(hex_value(start), hex_value(end), w);
    assert(r[0] == hex_digits(hex_value(start), w));
    assert(r[r.len() - 1] == hex_digits(hex_value(end), w));
    assert forall|i: int| 0 <= i < r.len() implies (#[trigger] r[i]).len() == w by {
        lemma_hex_digits_len((hex_value(start) + i) as nat, w);
    }
}

/// `hex_digits` writes exactly `w` digits.
pub proof fn lemma_hex_digits_len(v: nat, w: nat)
    ensures
        hex_digits(v, w).len() == w,
    decreases w,
{
    if w > 0 {
        lemma_hex_digits_len(v / 16, (w - 1) as nat);
    }
}

/// A string of `n` hexadecimal digits has a value below `16^n`.
pub proof fn lemma_hex_value_bound(s: Seq<char>)
    requires
        all_hex(s),
    ensures
        hex_value(s) < pow(16, s.len()),
    decreases s.len(),
{
    if s.len() == 0 {
        assert(pow(16, 0) == 1) by {
            reveal(pow);
        }
    } else {
        let p = s.drop_last();
        assert(all_hex(p)) by {
            assert forall|i: int| 0 <= i < p.len() implies hex_digit_value(#[trigger] p[i]) >= 0 by {
                assert(p[i] == s[i]);
            }
        }
        lemma_hex_value_bound(p);
        assert(hex_digit_value(s[s.len() - 1]) >= 0);
        let d = hex_digit_value(s.last());
        let v = hex_value(p);
        let q = pow(16, p.len());
        assert(pow(16, s.len()) == 16 * q) by {
            reveal(pow);
        }
        assert(v * 16 + d < 16 * q) by (nonlinear_arith)
            requires
                0 <= d < 16,
                0 <= v < q,
        ;
    }
}

/// Two values below `16^w` with the same `w` hexadecimal digits are equal.
pub proof fn lemma_hex_digits_injective(v1: nat, v2: nat, w: nat)
    requires
        v1 < pow(16, w),
        v2 < pow(16, w),
        hex_digits(v1, w) == hex_digits(v2, w),
    ensures
        v1 == v2,
    decreases w,
{
    if w == 0 {
        assert(pow(16, 0) == 1) by {
            reveal(pow);
        }
    } else {
        let q = pow(16, (w - 1) as nat);
        assert(pow(16, w) == 16 * q) by {
            reveal(pow);
        }
        let a1 = hex_digits(v1 / 16, (w - 1) as nat);
        let a2 = hex_digits(v2 / 16, (w - 1) as nat);
        assert(hex_digits(v1, w) == a1.push(hex_char(v1 % 16)));
        assert(hex_digits(v2, w) == a2.push(hex_char(v2 % 16)));
        assert(a1 =~= hex_digits(v1, w).drop_last());
        assert(a2 =~= hex_digits(v2, w).drop_last());
        assert(hex_char(v1 % 16) == hex_digits(v1, w).last());
        assert(hex_char(v2 % 16) == hex_digits(v2, w).last());
        assert(v1 / 16 < q && v2 / 16 < q) by (nonlinear_arith)
            requires
                v1 < 16 * q,
                v2 < 16 * q,
        ;
        lemma_hex_digits_injective(v1 / 16, v2 / 16, (w - 1) as nat);
        assert(v1 % 16 == v2 % 16) by {
            let d1 = v1 % 16;
            let d2 = v2 % 16;
            assert(d1 < 16 && d2 < 16);
            if d1 != d2 {
                assert(hex_char(d1) != hex_char(d2));
            }
        }
        assert(v1 == 16 * (v1 / 16) + v1 % 16);
        assert(v2 == 16 * (v2 / 16) + v2 % 16);
    }
}

/// The addresses of an accepted range whose ends are written with hexadecimal digits alone
/// are pairwise different: each device or route of a range gets an address of its own.
pub proof fn lemma_range_distinct(start: Seq<char>, end: Seq<char>)
    requires
        start.len() == end.len(),
        range_spec(start, end) is Ok,
        all_hex(start),
        all_hex(end),
    ensures
        range_addrs(hex_value(start), hex_value(end), start.len()).no_duplicates(),
{
    let w = start.len();
    let r = range_addrs(hex_value(start), hex_value(end), w);
    assert(addr_width(w) == w);
    lemma_hex_value_bound(end);
    assert forall|i: int, j: int| 0 <= i < r.len() && 0 <= j < r.len() && i != j implies r[i] != r[j] by {
        let vi = (hex_value(start) + i) as nat;
        let vj = (hex_value(start) + j) as nat;
        if r[i] == r[j] {
            lemma_hex_digits_injective(vi, vj, w);
        }
    }
}

} // verus!
