//! LEB128 decoding of unsigned and signed integers.
//!
//! A LEB128 number is a sequence of bytes whose low 7 bits are the payload,
//! least significant group first; every byte but the last has its high bit
//! set. A signed number takes bit 6 of its last byte as the sign.
use vstd::prelude::*;

use crate::binary::reader::{RView, Reader, read_as};

verus! {

#[derive(Debug, PartialEq, Eq, Clone, Copy)]
pub enum DecodeError {
    UnexpectedEnd,
    TooManyBytes,
    Overflow,
}

/// The four integer widths that are decoded.
#[derive(Debug, PartialEq, Eq, Clone, Copy)]
pub enum LebKind {
    U32,
    U64,
    I32,
    I64,
}

/// `128^k`.
pub open spec fn radix_pow(k: nat) -> nat
    decreases k,
{
    if k == 0 {
        1
    } else {
        128 * radix_pow((k - 1) as nat)
    }
}

/// The most bytes an encoding of this width may take.
pub open spec fn max_bytes(k: LebKind) -> int {
    match k {
        LebKind::U32 | LebKind::I32 => 5,
        LebKind::U64 | LebKind::I64 => 10,
    }
}

/// Whether a last byte at the largest allowed index keeps the value within the width:
/// its unused high bits must be zero (unsigned) or copies of the sign bit (signed).
pub open spec fn last_byte_ok(k: LebKind, b: u8) -> bool {
    match k {
        LebKind::U32 => b <= 15,
        LebKind::U64 => b <= 1,
        LebKind::I32 => b < 8 || b >= 0x78,
        LebKind::I64 => b == 0 || b >= 0x7f,
    }
}

/// The length of the encoding at the start of `s`, scanning from index `i`,
/// or why there is none.
pub open spec fn leb_scan(s: Seq<u8>, i: int, k: LebKind) -> Result<int, DecodeError>
    decreases max_bytes(k) - i,
{
    if i >= s.len() {
        Err(DecodeError::UnexpectedEnd)
    } else if i >= max_bytes(k) {
        Err(DecodeError::TooManyBytes)
    } else if s[i] < 0x80 {
        if i == max_bytes(k) - 1 && !last_byte_ok(k, s[i]) {
            Err(DecodeError::Overflow)
        } else {
            Ok(i + 1)
        }
    } else {
        leb_scan(s, i + 1, k)
    }
}

/// The unsigned value of the payload groups of the first `n` bytes.
pub open spec fn leb_payload(s: Seq<u8>, n: nat) -> int
    decreases n,
{
    if n == 0 {
        0
    } else {
        leb_payload(s, (n - 1) as nat) + (s[n - 1] % 128) * radix_pow((n - 1) as nat)
    }
}

/// The signed value of an `n`-byte encoding: the payload, less `128^n` when
/// the sign bit of the last byte is set.
pub open spec fn leb_signed(s: Seq<u8>, n: nat) -> int {
    if s[n - 1] >= 64 {
        leb_payload(s, n) - radix_pow(n)
    } else {
        leb_payload(s, n)
    }
}

/// A single byte.
pub open spec fn spec_u8(v: RView) -> Result<(u8, int), DecodeError> {
    if v.pos < v.end {
        Ok((v.bytes[v.pos], v.pos + 1))
    } else {
        Err(DecodeError::UnexpectedEnd)
    }
}

pub open spec fn spec_leb_u32(v: RView) -> Result<(u32, int), DecodeError> {
    match leb_scan(v.rest(), 0, LebKind::U32) {
        Ok(n) => Ok((leb_payload(v.rest(), n as nat) as u32, v.pos + n)),
        Err(e) => Err(e),
    }
}

pub open spec fn spec_leb_u64(v: RView) -> Result<(u64, int), DecodeError> {
    match leb_scan(v.rest(), 0, LebKind::U64) {
        Ok(n) => Ok((leb_payload(v.rest(), n as nat) as u64, v.pos + n)),
        Err(e) => Err(e),
    }
}

pub open spec fn spec_leb_i32(v: RView) -> Result<(i32, int), DecodeError> {
    match leb_scan(v.rest(), 0, LebKind::I32) {
        Ok(n) => Ok((leb_signed(v.rest(), n as nat) as i32, v.pos + n)),
        Err(e) => Err(e),
    }
}

pub open spec fn spec_leb_i64(v: RView) -> Result<(i64, int), DecodeError> {
    match leb_scan(v.rest(), 0, LebKind::I64) {
        Ok(n) => Ok((leb_signed(v.rest(), n as nat) as i64, v.pos + n)),
        Err(e) => Err(e),
    }
}

proof fn lemma_radix_pow_values()
    ensures
        radix_pow(1) == 128,
        radix_pow(3) == 0x20_0000,
        radix_pow(4) == 0x1000_0000,
        radix_pow(5) == 0x8_0000_0000,
        radix_pow(8) == 0x100_0000_0000_0000,
        radix_pow(9) == 0x8000_0000_0000_0000,
        radix_pow(10) == 0x40_0000_0000_0000_0000,
{
    reveal_with_fuel(radix_pow, 11);
}

proof fn lemma_radix_pow_mono(i: nat, j: nat)
    requires
        i <= j,
    ensures
        1 <= radix_pow(i) <= radix_pow(j),
    decreases j,
{
    if j > 0 {
        if i < j {
            lemma_radix_pow_mono(i, (j - 1) as nat);
        } else {
            lemma_radix_pow_mono(0, (j - 1) as nat);
        }
    }
}

/// The payload of `n` bytes is below `128^n`.
proof fn lemma_payload_bound(s: Seq<u8>, n: nat)
    ensures
        0 <= leb_payload(s, n) < radix_pow(n),
    decreases n,
{
    if n > 0 {
        lemma_payload_bound(s, (n - 1) as nat);
        let d = s[n - 1] % 128;
        let r = radix_pow((n - 1) as nat);
        assert(0 <= d * r <= 127 * r) by (nonlinear_arith)
            requires
                0 <= d < 128,
                r >= 0,
        ;
    }
}

/// A successful scan ends on a byte without continuation bit, which is
/// acceptable when it is at the largest allowed index.
pub proof fn lemma_scan_ok(s: Seq<u8>, i: int, k: LebKind)
    requires
        0 <= i,
        leb_scan(s, i, k) is Ok,
    ensures
        i < leb_scan(s, i, k)->Ok_0 <= max_bytes(k),
        leb_scan(s, i, k)->Ok_0 <= s.len(),
        s[leb_scan(s, i, k)->Ok_0 - 1] < 0x80,
        leb_scan(s, i, k)->Ok_0 == max_bytes(k) ==> last_byte_ok(k, s[leb_scan(s, i, k)->Ok_0 - 1]),
    decreases max_bytes(k) - i,
{
    if i < s.len() && i < max_bytes(k) && s[i] >= 0x80 {
        lemma_scan_ok(s, i + 1, k);
    }
}

/// The decoded value of a successful scan fits the width, so the
/// conversion to the width's type loses nothing.
pub proof fn lemma_value_range(s: Seq<u8>, k: LebKind)
    requires
        leb_scan(s, 0, k) is Ok,
    ensures
        ({
            let n = leb_scan(s, 0, k)->Ok_0 as nat;
            match k {
                LebKind::U32 => 0 <= leb_payload(s, n) <= u32::MAX,
                LebKind::U64 => 0 <= leb_payload(s, n) <= u64::MAX,
                LebKind::I32 => i32::MIN <= leb_signed(s, n) <= i32::MAX,
                LebKind::I64 => i64::MIN <= leb_signed(s, n) <= i64::MAX,
            }
        }),
{
    let n = leb_scan(s, 0, k)->Ok_0 as nat;
    lemma_scan_ok(s, 0, k);
    lemma_radix_pow_values();
    let m = (n - 1) as nat;
    let prev = leb_payload(s, m);
    let last = s[n - 1];
    let r = radix_pow(m);
    lemma_payload_bound(s, m);
    assert(leb_payload(s, n) == prev + last * r);
    assert(radix_pow(n) == 128 * r);
    if n < max_bytes(k) {
        if last >= 64 {
            assert(64 * r <= last * r <= 127 * r) by (nonlinear_arith)
                requires
                    64 <= last <= 127,
                    r >= 1,
            ;
        } else {
            assert(0 <= last * r <= 63 * r) by (nonlinear_arith)
                requires
                    0 <= last <= 63,
                    r >= 1,
            ;
        }
        match k {
            LebKind::U32 | LebKind::I32 => {
                lemma_radix_pow_mono(m, 3);
            },
            _ => {
                lemma_radix_pow_mono(m, 8);
            },
        }
    } else {
        assert(last * r == last * radix_pow((max_bytes(k) - 1) as nat));
        match k {
            LebKind::U32 => {
                assert(0 <= last * r <= 15 * 0x1000_0000) by (nonlinear_arith)
                    requires
                        0 <= last <= 15,
                        r == 0x1000_0000,
                ;
            },
            LebKind::I32 => {
                if last >= 64 {
                    assert(0x78 * 0x1000_0000 <= last * r <= 127 * 0x1000_0000) by (nonlinear_arith)
                        requires
                            0x78 <= last <= 127,
                            r == 0x1000_0000,
                    ;
                } else {
                    assert(0 <= last * r <= 7 * 0x1000_0000) by (nonlinear_arith)
                        requires
                            0 <= last <= 7,
                            r == 0x1000_0000,
                    ;
                }
            },
            LebKind::U64 => {
                assert(0 <= last * r <= 0x8000_0000_0000_0000) by (nonlinear_arith)
                    requires
                        0 <= last <= 1,
                        r == 0x8000_0000_0000_0000,
                ;
            },
            LebKind::I64 => {
                if last >= 64 {
                    assert(last == 0x7f);
                } else {
                    assert(last == 0);
                }
            },
        }
    }
}

/// The `n` bytes of an encoding whose payload groups are those of `u`,
/// least significant first, every byte but the last with its high bit set.
pub open spec fn leb_bytes(u: nat, n: nat) -> Seq<u8> {
    Seq::new(
        n,
        |j: int|
            ((u / radix_pow(j as nat)) % 128 + if j < n - 1 {
                128int
            } else {
                0int
            }) as u8,
    )
}

/// The number of bytes of the shortest unsigned encoding of `x`.
pub open spec fn leb_len_u(x: nat) -> nat
    decreases x,
{
    if x < 128 {
        1
    } else {
        1 + leb_len_u(x / 128)
    }
}

/// The shortest unsigned LEB128 encoding of `x`.
pub open spec fn leb_encode_u(x: nat) -> Seq<u8> {
    leb_bytes(x, leb_len_u(x))
}

/// The number of bytes of the shortest signed encoding of `x`: the fewest
/// groups whose last one's bit 6 carries the sign.
pub open spec fn leb_len_s(x: int) -> nat
    decreases (if x >= 0 {
        x
    } else {
        -x
    }),
{
    if -64 <= x < 64 {
        1
    } else {
        1 + leb_len_s(x / 128)
    }
}

/// The shortest signed LEB128 encoding of `x`: the groups of `x` in two's
/// complement, as many as [`leb_len_s`] says.
pub open spec fn leb_encode_s(x: int) -> Seq<u8> {
    let n = leb_len_s(x);
    leb_bytes((x % (radix_pow(n) as int)) as nat, n)
}

proof fn lemma_radix_pow_succ(n: nat)
    ensures
        radix_pow(n + 1) == 128 * radix_pow(n),
        radix_pow(n) >= 1,
{
    lemma_radix_pow_mono(0, n);
}

/// Every value below `128^k` has an unsigned encoding of at most `k` bytes,
/// and the shortest one covers the value.
proof fn lemma_len_u(x: nat, k: nat)
    requires
        k >= 1,
        x < radix_pow(k),
    ensures
        1 <= leb_len_u(x) <= k,
        x < radix_pow(leb_len_u(x)),
    decreases x,
{
    lemma_radix_pow_succ((k - 1) as nat);
    if x >= 128 {
        assert(k >= 2) by {
            if k == 1 {
                reveal_with_fuel(radix_pow, 2);
            }
        }
        lemma_len_u(x / 128, (k - 1) as nat);
        lemma_radix_pow_succ((leb_len_u(x / 128)) as nat);
    } else {
        reveal_with_fuel(radix_pow, 2);
    }
}

/// Every value in `[-64 * 128^(k-1), 64 * 128^(k-1))` has a signed encoding
/// of at most `k` bytes, and the shortest one's range covers the value.
proof fn lemma_len_s(x: int, k: nat)
    requires
        k >= 1,
        -64 * radix_pow((k - 1) as nat) <= x < 64 * radix_pow((k - 1) as nat),
    ensures
        1 <= leb_len_s(x) <= k,
        -64 * radix_pow((leb_len_s(x) - 1) as nat) <= x < 64 * radix_pow((leb_len_s(x) - 1) as nat),
    decreases (if x >= 0 {
        x
    } else {
        -x
    }),
{
    if !(-64 <= x < 64) {
        assert(k >= 2) by {
            if k == 1 {
                reveal_with_fuel(radix_pow, 1);
            }
        }
        let p = radix_pow((k - 2) as nat);
        lemma_radix_pow_succ((k - 2) as nat);
        assert(-64 * p <= x / 128 < 64 * p);
        lemma_len_s(x / 128, (k - 1) as nat);
        let m = leb_len_s(x / 128);
        lemma_radix_pow_succ((m - 1) as nat);
    } else {
        reveal_with_fuel(radix_pow, 1);
    }
}

/// The payload of bytes whose groups are those of `u` is `u` cut to as many groups.
proof fn lemma_payload_groups(s: Seq<u8>, u: nat, n: nat)
    requires
        n <= s.len(),
        forall|j: int| 0 <= j < n ==> #[trigger] s[j] % 128 == (u / radix_pow(j as nat)) % 128,
    ensures
        leb_payload(s, n) == u % radix_pow(n),
    decreases n,
{
    if n == 0 {
        reveal_with_fuel(radix_pow, 1);
    } else {
        let m = (n - 1) as nat;
        lemma_payload_groups(s, u, m);
        let p = radix_pow(m);
        lemma_radix_pow_succ(m);
        assert(s[m as int] % 128 == (u / p) % 128);
        vstd::arithmetic::div_mod::lemma_breakdown(u as int, p as int, 128);
        assert(p * 128 == radix_pow(n));
    }
}

/// A scan from any index up to the last byte of an encoding of `n` bytes
/// ends after it.
proof fn lemma_scan_encoding(s: Seq<u8>, i: int, n: int, k: LebKind)
    requires
        0 <= i < n <= s.len(),
        n <= max_bytes(k),
        forall|j: int| 0 <= j < n - 1 ==> #[trigger] s[j] >= 0x80,
        s[n - 1] < 0x80,
        n == max_bytes(k) ==> last_byte_ok(k, s[n - 1]),
    ensures
        leb_scan(s, i, k) == Ok::<int, DecodeError>(n),
    decreases n - i,
{
    if i < n - 1 {
        lemma_scan_encoding(s, i + 1, n, k);
    }
}

/// The bytes of an encoding, followed by anything: each byte but the last
/// continues, the last does not, and each carries its group of `u`.
proof fn lemma_leb_bytes(u: nat, n: nat, tail: Seq<u8>)
    requires
        n >= 1,
    ensures
        ({
            let s = leb_bytes(u, n) + tail;
            &&& leb_bytes(u, n).len() == n
            &&& forall|j: int| 0 <= j < n - 1 ==> #[trigger] s[j] >= 0x80
            &&& s[n - 1] < 0x80
            &&& s[n - 1] == (u / radix_pow((n - 1) as nat)) % 128
            &&& forall|j: int| 0 <= j < n ==> #[trigger] s[j] % 128 == (u / radix_pow(j as nat)) % 128
        }),
{
    let s = leb_bytes(u, n) + tail;
    assert forall|j: int| 0 <= j < n implies #[trigger] s[j] % 128 == (u / radix_pow(j as nat)) % 128 && (j < n - 1
        ==> s[j] >= 0x80) && (j == n - 1 ==> s[j] < 0x80) by {
        lemma_radix_pow_mono(0, j as nat);
        let d = (u / radix_pow(j as nat)) % 128;
        assert(0 <= d < 128);
    }
}

/// Reading the shortest unsigned encoding of a `u32`, followed by anything,
/// gives the value back and stops right after the encoding, which takes at
/// most five bytes.
pub proof fn lemma_leb_u32_roundtrip(x: u32, tail: Seq<u8>, v: RView)
    requires
        v.rest() == leb_encode_u(x as nat) + tail,
    ensures
        1 <= leb_encode_u(x as nat).len() <= 5,
        spec_leb_u32(v) == Ok::<(u32, int), DecodeError>((x, v.pos + leb_encode_u(x as nat).len())),
{
    lemma_radix_pow_values();
    lemma_len_u(x as nat, 5);
    let n = leb_len_u(x as nat);
    let s = v.rest();
    lemma_leb_bytes(x as nat, n, tail);
    if n == 5 {
        assert((x as nat / radix_pow(4)) % 128 <= 15) by {
            reveal_with_fuel(radix_pow, 5);
        }
    }
    lemma_scan_encoding(s, 0, n as int, LebKind::U32);
    lemma_payload_groups(s, x as nat, n);
    vstd::arithmetic::div_mod::lemma_small_mod(x as nat, radix_pow(n));
}

/// Reading the shortest signed encoding of an `i32`, followed by anything,
/// gives the value back and stops right after the encoding, which takes at
/// most five bytes.
pub proof fn lemma_leb_i32_roundtrip(x: i32, tail: Seq<u8>, v: RView)
    requires
        v.rest() == leb_encode_s(x as int) + tail,
    ensures
        1 <= leb_encode_s(x as int).len() <= 5,
        spec_leb_i32(v) == Ok::<(i32, int), DecodeError>((x, v.pos + leb_encode_s(x as int).len())),
{
    lemma_radix_pow_values();
    assert(radix_pow(4) == 0x1000_0000);
    lemma_len_s(x as int, 5);
    let n = leb_len_s(x as int);
    let p = radix_pow((n - 1) as nat);
    lemma_radix_pow_succ((n - 1) as nat);
    let d = radix_pow(n) as int;
    let u: int = (x as int) % d;
    if x >= 0 {
        vstd::arithmetic::div_mod::lemma_small_mod(x as nat, d as nat);
    } else {
        vstd::arithmetic::div_mod::lemma_fundamental_div_mod_converse_mod(x as int, d, -1, x + d);
    }
    assert(0 <= u < d);
    let s = v.rest();
    lemma_leb_bytes(u as nat, n, tail);
    let last = s[n - 1];
    let q = u / (p as int);
    vstd::arithmetic::div_mod::lemma_fundamental_div_mod(u, p as int);
    vstd::arithmetic::div_mod::lemma_mod_bound(u, p as int);
    assert(0 <= q < 128) by (nonlinear_arith)
        requires
            u == p * q + u % (p as int),
            0 <= u % (p as int) < p,
            0 <= u < 128 * p,
            p >= 1,
    ;
    assert(last == q);
    if x >= 0 {
        assert(q < 64) by (nonlinear_arith)
            requires
                u == p * q + u % (p as int),
                0 <= u % (p as int),
                u < 64 * p,
                p >= 1,
        ;
        if n == 5 {
            assert(q < 8) by (nonlinear_arith)
                requires
                    u == p * q + u % (p as int),
                    0 <= u % (p as int),
                    u < 0x8000_0000,
                    p == 0x1000_0000,
            ;
        }
    } else {
        assert(q >= 64) by (nonlinear_arith)
            requires
                u == p * q + u % (p as int),
                u % (p as int) < p,
                u >= 64 * p,
                p >= 1,
        ;
        if n == 5 {
            assert(q >= 0x78) by (nonlinear_arith)
                requires
                    u == p * q + u % (p as int),
                    u % (p as int) < p,
                    u >= 0x8_0000_0000 - 0x8000_0000,
                    p == 0x1000_0000,
            ;
        }
    }
    lemma_scan_encoding(s, 0, n as int, LebKind::I32);
    lemma_payload_groups(s, u as nat, n);
    vstd::arithmetic::div_mod::lemma_small_mod(u as nat, d as nat);
}

/// Scans the encoding at the reader's position without moving: its payload,
/// its length, its last byte and the scale `128^(n-1)` of that byte.
fn scan(reader: &Reader, k: LebKind) -> (r: Result<(u128, usize), DecodeError>)
    ensures
        reader@.wf(),
        match leb_scan(reader@.rest(), 0, k) {
            Ok(n) => r is Ok && r->Ok_0.0 as int == leb_payload(reader@.rest(), n as nat)
                && r->Ok_0.1 as int == n,
            Err(e) => r == Err::<(u128, usize), DecodeError>(e),
        },
{
    let avail = reader.remaining();
    let ghost s = reader@.rest();
    let max: usize = match k {
        LebKind::U32 | LebKind::I32 => 5,
        LebKind::U64 | LebKind::I64 => 10,
    };
    let mut acc: u128 = 0;
    let mut mult: u128 = 1;
    let mut i: usize = 0;
    proof {
        lemma_radix_pow_values();
    }
    loop
        invariant
            max == max_bytes(k),
            avail == s.len(),
            s == reader@.rest(),
            reader@.wf(),
            i <= max,
            mult == radix_pow(i as nat),
            acc == leb_payload(s, i as nat),
            acc < mult,
            leb_scan(s, 0, k) == leb_scan(s, i as int, k),
        decreases max - i,
    {
        if i >= avail {
            return Err(DecodeError::UnexpectedEnd);
        }
        if i == max {
            return Err(DecodeError::TooManyBytes);
        }
        let b = reader.byte_at(i);
        proof {
            lemma_radix_pow_values();
            lemma_radix_pow_mono(i as nat, 9);
            assert((b as int % 128) * mult <= 127 * mult) by (nonlinear_arith)
                requires
                    0 <= b as int % 128 <= 127,
                    mult >= 0,
            ;
            assert(leb_payload(s, (i + 1) as nat) == acc + (b as int % 128) * mult);
        }
        if b < 0x80 {
            if i == max - 1 && !last_ok(k, b) {
                return Err(DecodeError::Overflow);
            }
            acc = acc + (b as u128) * mult;
            return Ok((acc, i + 1));
        }
        acc = acc + ((b - 0x80) as u128) * mult;
        mult = mult * 128;
        i = i + 1;
    }
}

fn last_ok(k: LebKind, b: u8) -> (r: bool)
    ensures
        r == last_byte_ok(k, b),
{
    match k {
        LebKind::U32 => b <= 15,
        LebKind::U64 => b <= 1,
        LebKind::I32 => b < 8 || b >= 0x78,
        LebKind::I64 => b == 0 || b >= 0x7f,
    }
}

/// A single byte.
pub fn read_u8(reader: &mut Reader) -> (r: Result<u8, DecodeError>)
    ensures
        read_as(spec_u8(old(reader)@), r, final(reader)@),
        final(reader)@.same_window(old(reader)@),
        r is Err ==> final(reader)@ == old(reader)@,
{
    if reader.remaining() == 0 {
        return Err(DecodeError::UnexpectedEnd);
    }
    let b = reader.byte_at(0);
    reader.advance(1);
    Ok(b)
}

pub fn read_leb128_u32(reader: &mut Reader) -> (r: Result<u32, DecodeError>)
    ensures
        read_as(spec_leb_u32(old(reader)@), r, final(reader)@),
        final(reader)@.same_window(old(reader)@),
{
    match scan(reader, LebKind::U32) {
        Ok((p, n)) => {
            proof {
                lemma_value_range(reader@.rest(), LebKind::U32);
                lemma_scan_ok(reader@.rest(), 0, LebKind::U32);
            }
            reader.advance(n);
            Ok(p as u32)
        },
        Err(e) => Err(e),
    }
}

pub fn read_leb128_u64(reader: &mut Reader) -> (r: Result<u64, DecodeError>)
    ensures
        read_as(spec_leb_u64(old(reader)@), r, final(reader)@),
        final(reader)@.same_window(old(reader)@),
{
    match scan(reader, LebKind::U64) {
        Ok((p, n)) => {
            proof {
                lemma_value_range(reader@.rest(), LebKind::U64);
                lemma_scan_ok(reader@.rest(), 0, LebKind::U64);
            }
            reader.advance(n);
            Ok(p as u64)
        },
        Err(e) => Err(e),
    }
}

/// Applies the sign of an `n`-byte encoding to its payload.
fn signed_value(reader: &Reader, p: u128, n: usize, k: LebKind) -> (r: i128)
    requires
        leb_scan(reader@.rest(), 0, k) == Ok::<int, DecodeError>(n as int),
        p == leb_payload(reader@.rest(), n as nat),
        k == LebKind::I32 || k == LebKind::I64,
    ensures
        r == leb_signed(reader@.rest(), n as nat),
{
    let _ = reader.remaining();
    let ghost s = reader@.rest();
    proof {
        lemma_scan_ok(s, 0, k);
    }
    let last = reader.byte_at(n - 1);
    let mut scale: u128 = 1;
    let mut j: usize = 0;
    while j < n
        invariant
            j <= n <= 10,
            scale == radix_pow(j as nat),
        decreases n - j,
    {
        proof {
            lemma_radix_pow_values();
            lemma_radix_pow_mono((j + 1) as nat, 10);
        }
        scale = scale * 128;
        j = j + 1;
    }
    proof {
        lemma_value_range(s, k);
        lemma_radix_pow_values();
        lemma_radix_pow_mono(n as nat, 10);
        lemma_payload_bound(s, n as nat);
    }
    if last >= 64 {
        p as i128 - scale as i128
    } else {
        p as i128
    }
}

pub fn read_leb128_i32(reader: &mut Reader) -> (r: Result<i32, DecodeError>)
    ensures
        read_as(spec_leb_i32(old(reader)@), r, final(reader)@),
        final(reader)@.same_window(old(reader)@),
{
    match scan(reader, LebKind::I32) {
        Ok((p, n)) => {
            proof {
                lemma_value_range(reader@.rest(), LebKind::I32);
                lemma_scan_ok(reader@.rest(), 0, LebKind::I32);
            }
            let v = signed_value(reader, p, n, LebKind::I32);
            reader.advance(n);
            Ok(v as i32)
        },
        Err(e) => Err(e),
    }
}

pub fn read_leb128_i64(reader: &mut Reader) -> (r: Result<i64, DecodeError>)
    ensures
        read_as(spec_leb_i64(old(reader)@), r, final(reader)@),
        final(reader)@.same_window(old(reader)@),
{
    match scan(reader, LebKind::I64) {
        Ok((p, n)) => {
            proof {
                lemma_value_range(reader@.rest(), LebKind::I64);
                lemma_scan_ok(reader@.rest(), 0, LebKind::I64);
            }
            let v = signed_value(reader, p, n, LebKind::I64);
            reader.advance(n);
            Ok(v as i64)
        },
        Err(e) => Err(e),
    }
}

} // verus!
