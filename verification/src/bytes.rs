//! Fixed-width byte encodings and the bytewise key order.
//!
//! Keys of the index are compared byte by byte, so an integer that takes part
//! in a sort position is written big-endian: then the numeric order of the
//! integers is the bytewise order of their encodings.

use vstd::prelude::*;

verus! {

/// `256^n`, the number of values that `n` bytes can take.
pub open spec fn pow256(n: nat) -> nat
    decreases n,
{
    if n == 0 {
        1
    } else {
        256 * pow256((n - 1) as nat)
    }
}

/// The number that the bytes `s` spell, most significant byte first.
pub open spec fn be_value(s: Seq<u8>) -> nat
    decreases s.len(),
{
    if s.len() == 0 {
        0
    } else {
        be_value(s.drop_last()) * 256 + s.last() as nat
    }
}

/// The low `n` bytes of `x`, most significant byte first.
pub open spec fn be_bytes(x: nat, n: nat) -> Seq<u8>
    decreases n,
{
    if n == 0 {
        Seq::empty()
    } else {
        be_bytes(x / 256, (n - 1) as nat).push((x % 256) as u8)
    }
}

/// The number that the bytes `s` spell, least significant byte first.
pub open spec fn le_value(s: Seq<u8>) -> nat
    decreases s.len(),
{
    if s.len() == 0 {
        0
    } else {
        s[0] as nat + 256 * le_value(s.drop_first())
    }
}

/// The low `n` bytes of `x`, least significant byte first.
pub open spec fn le_bytes(x: nat, n: nat) -> Seq<u8>
    decreases n,
{
    if n == 0 {
        Seq::empty()
    } else {
        seq![(x % 256) as u8] + le_bytes(x / 256, (n - 1) as nat)
    }
}

/// Bytewise (lexicographic) order, the order in which an ordered key-value
/// store walks its keys.
pub open spec fn lex_le(a: Seq<u8>, b: Seq<u8>) -> bool
    decreases a.len(),
{
    if a.len() == 0 {
        true
    } else if b.len() == 0 {
        false
    } else if a[0] != b[0] {
        a[0] < b[0]
    } else {
        lex_le(a.drop_first(), b.drop_first())
    }
}

/// The array whose bytes are `s`; meaningful when `s` has `N` bytes.
pub open spec fn array_of<const N: usize>(s: Seq<u8>) -> [u8; N] {
    choose|a: [u8; N]| a@ == s
}

spec fn filled<const N: usize>(a: [u8; N], s: Seq<u8>, n: nat) -> [u8; N]
    decreases n,
{
    if n == 0 {
        a
    } else {
        vstd::array::spec_array_update(filled(a, s, (n - 1) as nat), n - 1, s[n - 1])
    }
}

proof fn lemma_filled<const N: usize>(a: [u8; N], s: Seq<u8>, n: nat)
    requires
        n <= N,
        s.len() == N,
    ensures
        forall|i: int| 0 <= i < n ==> filled(a, s, n)@[i] == s[i],
    decreases n,
{
    if n > 0 {
        lemma_filled(a, s, (n - 1) as nat);
    }
}

/// Every sequence of `N` bytes is the content of an array.
pub proof fn lemma_array_of<const N: usize>(s: Seq<u8>)
    requires
        s.len() == N,
    ensures
        array_of::<N>(s)@ == s,
{
    let start: [u8; N] = arbitrary();
    let witness = filled(start, s, N as nat);
    lemma_filled(start, s, N as nat);
    assert(witness@ =~= s);
}

/// An array is the array of its own bytes.
pub proof fn lemma_array_of_view<const N: usize>(a: [u8; N])
    ensures
        array_of::<N>(a@) == a,
{
    lemma_array_of::<N>(a@);
    assert(array_of::<N>(a@) =~= a);
}

/// The number of values of the widths that the index uses.
pub proof fn lemma_pow256_values()
    ensures
        pow256(0) == 1,
        pow256(1) == 0x100,
        pow256(4) == 0x1_0000_0000,
        pow256(8) == 0x1_0000_0000_0000_0000,
        pow256(16) == 0x1_0000_0000_0000_0000_0000_0000_0000_0000,
{
    reveal_with_fuel(pow256, 17);
}

/// An encoding of width `n` has `n` bytes.
pub proof fn lemma_be_bytes_len(x: nat, n: nat)
    ensures
        be_bytes(x, n).len() == n,
    decreases n,
{
    if n > 0 {
        lemma_be_bytes_len(x / 256, (n - 1) as nat);
    }
}

/// An encoding of width `n` has `n` bytes.
pub proof fn lemma_le_bytes_len(x: nat, n: nat)
    ensures
        le_bytes(x, n).len() == n,
    decreases n,
{
    if n > 0 {
        lemma_le_bytes_len(x / 256, (n - 1) as nat);
    }
}

/// `n` bytes spell a number below `256^n`.
pub proof fn lemma_be_value_bound(s: Seq<u8>)
    ensures
        be_value(s) < pow256(s.len()),
    decreases s.len(),
{
    if s.len() > 0 {
        lemma_be_value_bound(s.drop_last());
    }
}

/// `n` bytes spell a number below `256^n`.
pub proof fn lemma_le_value_bound(s: Seq<u8>)
    ensures
        le_value(s) < pow256(s.len()),
    decreases s.len(),
{
    if s.len() > 0 {
        lemma_le_value_bound(s.drop_first());
    }
}

/// Decoding what was encoded gives the number back, if it fits the width.
pub proof fn lemma_be_value_of_bytes(x: nat, n: nat)
    requires
        x < pow256(n),
    ensures
        be_value(be_bytes(x, n)) == x,
    decreases n,
{
    if n > 0 {
        let rest = be_bytes(x / 256, (n - 1) as nat);
        lemma_be_value_of_bytes(x / 256, (n - 1) as nat);
        assert(be_bytes(x, n).drop_last() =~= rest);
    }
}

/// Encoding what was decoded gives the bytes back.
pub proof fn lemma_be_bytes_of_value(s: Seq<u8>)
    ensures
        be_bytes(be_value(s), s.len()) == s,
    decreases s.len(),
{
    if s.len() > 0 {
        lemma_be_bytes_of_value(s.drop_last());
        let v = be_value(s);
        assert(v / 256 == be_value(s.drop_last()));
        assert(v % 256 == s.last() as nat);
        assert(be_bytes(v, s.len()) =~= s);
    }
}

/// Decoding what was encoded gives the number back, if it fits the width.
pub proof fn lemma_le_value_of_bytes(x: nat, n: nat)
    requires
        x < pow256(n),
    ensures
        le_value(le_bytes(x, n)) == x,
    decreases n,
{
    if n > 0 {
        let rest = le_bytes(x / 256, (n - 1) as nat);
        lemma_le_value_of_bytes(x / 256, (n - 1) as nat);
        assert(le_bytes(x, n).drop_first() =~= rest);
    }
}

/// More bytes can take more values.
pub proof fn lemma_pow256_monotonic(a: nat, b: nat)
    requires
        a <= b,
    ensures
        pow256(a) <= pow256(b),
        pow256(a) > 0,
    decreases b,
{
    if a < b {
        lemma_pow256_monotonic(a, (b - 1) as nat);
    } else if a > 0 {
        lemma_pow256_monotonic((a - 1) as nat, (a - 1) as nat);
    }
}

/// A common prefix does not decide the order.
pub proof fn lemma_lex_le_common_prefix(p: Seq<u8>, a: Seq<u8>, b: Seq<u8>)
    ensures
        lex_le(p + a, p + b) == lex_le(a, b),
    decreases p.len(),
{
    if p.len() == 0 {
        assert(p + a =~= a);
        assert(p + b =~= b);
    } else {
        assert((p + a).drop_first() =~= p.drop_first() + a);
        assert((p + b).drop_first() =~= p.drop_first() + b);
        lemma_lex_le_common_prefix(p.drop_first(), a, b);
    }
}

/// Where two keys start with different fields of one width, those fields
/// decide the order.
pub proof fn lemma_lex_le_first_field(x: Seq<u8>, y: Seq<u8>, a: Seq<u8>, b: Seq<u8>)
    requires
        x.len() == y.len(),
        x != y,
    ensures
        lex_le(x + a, y + b) == lex_le(x, y),
    decreases x.len(),
{
    if x.len() == 0 {
        assert(x =~= y);
    } else {
        assert((x + a).drop_first() =~= x.drop_first() + a);
        assert((y + b).drop_first() =~= y.drop_first() + b);
        if x[0] == y[0] {
            if x.drop_first() =~= y.drop_first() {
                assert forall|i: int| 0 <= i < x.len() implies x[i] == y[i] by {
                    if i > 0 {
                        assert(x.drop_first()[i - 1] == y.drop_first()[i - 1]);
                    }
                }
                assert(x =~= y);
            }
            lemma_lex_le_first_field(x.drop_first(), y.drop_first(), a, b);
        }
    }
}

/// On encodings of one width the bytewise order is the numeric order, and
/// equal numbers have equal encodings.
pub proof fn lemma_lex_le_is_numeric(a: Seq<u8>, b: Seq<u8>)
    requires
        a.len() == b.len(),
    ensures
        lex_le(a, b) <==> be_value(a) <= be_value(b),
        a == b <==> be_value(a) == be_value(b),
    decreases a.len(),
{
    if a.len() == 0 {
        assert(a =~= b);
    } else {
        let (a0, b0) = (a.drop_last(), b.drop_last());
        let (x, y) = (seq![a.last()], seq![b.last()]);
        lemma_lex_le_is_numeric(a0, b0);
        assert(a =~= a0 + x);
        assert(b =~= b0 + y);
        assert(lex_le(x.drop_first(), y.drop_first()));
        assert(lex_le(x, y) == (a.last() <= b.last()));
        if a0 == b0 {
            lemma_lex_le_common_prefix(a0, x, y);
        } else {
            lemma_lex_le_first_field(a0, b0, x, y);
        }
    }
}

/// Appends the low `width` bytes of `x` to `out`, most significant byte
/// first.
pub fn push_be(out: &mut Vec<u8>, x: u128, width: usize)
    ensures
        final(out)@ == old(out)@ + be_bytes(x as nat, width as nat),
{
    let base = out.len();
    let mut n: usize = 0;
    while n < width
        invariant
            n <= width,
            out@.len() == base + n,
            out@.subrange(0, base as int) == old(out)@,
            base == old(out)@.len(),
        decreases width - n,
    {
        out.push(0u8);
        n += 1;
    }
    let total = out.len();
    let mut rest = x;
    let mut i: usize = 0;
    while i < width
        invariant
            i <= width,
            out@.len() == base + width == total,
            out@.subrange(0, base as int) == old(out)@,
            base == old(out)@.len(),
            be_bytes(x as nat, width as nat) == be_bytes(rest as nat, (width - i) as nat)
                + out@.subrange(base + width - i, base + width),
        decreases width - i,
    {
        let ghost before = out@;
        out.set(total - 1 - i, (rest % 256) as u8);
        proof {
            let head = be_bytes((rest / 256) as nat, (width - i - 1) as nat);
            assert(be_bytes(rest as nat, (width - i) as nat) == head.push((rest % 256) as u8));
            assert(head.push((rest % 256) as u8) + before.subrange(
                base + width - i,
                base + width,
            ) =~= head + out@.subrange(base + width - i - 1, base + width));
            assert(out@.subrange(0, base as int) =~= before.subrange(0, base as int));
        }
        rest = rest / 256;
        i += 1;
    }
    proof {
        assert(be_bytes(rest as nat, 0) =~= Seq::<u8>::empty());
        assert(out@ =~= old(out)@ + out@.subrange(base as int, base + width));
    }
}

/// Appends the low `width` bytes of `x` to `out`, least significant byte
/// first.
pub fn push_le(out: &mut Vec<u8>, x: u128, width: usize)
    ensures
        final(out)@ == old(out)@ + le_bytes(x as nat, width as nat),
{
    let ghost base = out@.len();
    let mut rest = x;
    let mut i: usize = 0;
    while i < width
        invariant
            i <= width,
            out@.len() == base + i,
            base == old(out)@.len(),
            out@.subrange(0, base as int) == old(out)@,
            le_bytes(x as nat, width as nat) == out@.subrange(base as int, base + i) + le_bytes(
                rest as nat,
                (width - i) as nat,
            ),
        decreases width - i,
    {
        let ghost before = out@;
        out.push((rest % 256) as u8);
        proof {
            let tail = le_bytes((rest / 256) as nat, (width - i - 1) as nat);
            assert(le_bytes(rest as nat, (width - i) as nat) == seq![(rest % 256) as u8] + tail);
            assert(before.subrange(base as int, base + i) + (seq![(rest % 256) as u8] + tail)
                =~= out@.subrange(base as int, base + i + 1) + tail);
            assert(out@.subrange(0, base as int) =~= before.subrange(0, base as int));
        }
        rest = rest / 256;
        i += 1;
    }
    proof {
        assert(le_bytes(rest as nat, 0) =~= Seq::<u8>::empty());
        assert(out@ =~= old(out)@ + out@.subrange(base as int, base + width));
    }
}

/// Reads `width` bytes at `offset` as a number, most significant byte first.
pub fn read_be(data: &[u8], offset: usize, width: usize) -> (x: u128)
    requires
        width <= 16,
        offset + width <= data@.len(),
    ensures
        x == be_value(data@.subrange(offset as int, offset + width)),
{
    let ghost field = data@.subrange(offset as int, offset + width);
    let size = data.len();
    let mut acc: u128 = 0;
    let mut i: usize = 0;
    while i < width
        invariant
            i <= width <= 16,
            offset + width <= data@.len() == size,
            field == data@.subrange(offset as int, offset + width),
            acc == be_value(field.take(i as int)),
        decreases width - i,
    {
        proof {
            lemma_be_value_bound(field.take(i as int));
            lemma_pow256_monotonic(i as nat, 15);
            lemma_pow256_values();
            reveal_with_fuel(pow256, 16);
            assert(field.take(i + 1).drop_last() =~= field.take(i as int));
        }
        acc = acc * 256 + data[offset + i] as u128;
        i += 1;
    }
    proof {
        assert(field.take(width as int) =~= field);
    }
    acc
}

/// Reads `width` bytes at `offset` as a number, least significant byte
/// first.
pub fn read_le(data: &[u8], offset: usize, width: usize) -> (x: u128)
    requires
        width <= 16,
        offset + width <= data@.len(),
    ensures
        x == le_value(data@.subrange(offset as int, offset + width)),
{
    let ghost field = data@.subrange(offset as int, offset + width);
    let size = data.len();
    let mut acc: u128 = 0;
    let mut i: usize = width;
    while i > 0
        invariant
            i <= width <= 16,
            offset + width <= data@.len() == size,
            field == data@.subrange(offset as int, offset + width),
            acc == le_value(field.skip(i as int)),
        decreases i,
    {
        proof {
            lemma_le_value_bound(field.skip(i as int));
            lemma_pow256_monotonic((width - i) as nat, 15);
            lemma_pow256_values();
            reveal_with_fuel(pow256, 16);
            assert(field.skip(i - 1).drop_first() =~= field.skip(i as int));
        }
        i -= 1;
        acc = acc * 256 + data[offset + i] as u128;
    }
    proof {
        assert(field.skip(0) =~= field);
    }
    acc
}

/// The `N` bytes of `data` at `offset`, if they are all there.
pub open spec fn field_at<const N: usize>(data: Seq<u8>, offset: int) -> Option<[u8; N]> {
    if 0 <= offset && offset + N <= data.len() {
        Some(array_of::<N>(data.subrange(offset, offset + N)))
    } else {
        None
    }
}

/// The 128-bit number at `offset`, most significant byte first, if its 16
/// bytes are all there.
pub open spec fn u128_be_at(data: Seq<u8>, offset: int) -> Option<u128> {
    if 0 <= offset && offset + 16 <= data.len() {
        Some(be_value(data.subrange(offset, offset + 16)) as u128)
    } else {
        None
    }
}

/// The 32-bit number at `offset`, most significant byte first, if its 4
/// bytes are all there.
pub open spec fn u32_be_at(data: Seq<u8>, offset: int) -> Option<u32> {
    if 0 <= offset && offset + 4 <= data.len() {
        Some(be_value(data.subrange(offset, offset + 4)) as u32)
    } else {
        None
    }
}

/// The 128-bit number at `offset`, least significant byte first, if its 16
/// bytes are all there.
pub open spec fn u128_le_at(data: Seq<u8>, offset: int) -> Option<u128> {
    if 0 <= offset && offset + 16 <= data.len() {
        Some(le_value(data.subrange(offset, offset + 16)) as u128)
    } else {
        None
    }
}

/// The 64-bit number at `offset`, least significant byte first, if its 8
/// bytes are all there.
pub open spec fn u64_le_at(data: Seq<u8>, offset: int) -> Option<u64> {
    if 0 <= offset && offset + 8 <= data.len() {
        Some(le_value(data.subrange(offset, offset + 8)) as u64)
    } else {
        None
    }
}

/// Whether `width` bytes at `offset` lie inside `size` bytes.
pub fn fits(size: usize, offset: usize, width: usize) -> (inside: bool)
    ensures
        inside == (offset + width <= size),
{
    offset <= size && width <= size - offset
}

/// Copies the `N` bytes at `offset` out of `data`, or reports that `data`
/// is too short for them.
pub fn read_field<const N: usize>(data: &[u8], offset: usize) -> (field: Option<[u8; N]>)
    ensures
        field == field_at::<N>(data@, offset as int),
{
    if fits(data.len(), offset, N) {
        let size = data.len();
        let mut arr = [0u8;N];
        let mut i: usize = 0;
        while i < N
            invariant
                i <= N,
                offset + N <= data@.len() == size,
                forall|j: int| 0 <= j < i ==> arr@[j] == data@[offset + j],
            decreases N - i,
        {
            arr[i] = data[offset + i];
            i += 1;
        }
        proof {
            let bytes = data@.subrange(offset as int, offset + N);
            assert(arr@ =~= bytes);
            lemma_array_of::<N>(bytes);
            assert(arr =~= array_of::<N>(bytes));
        }
        Some(arr)
    } else {
        None
    }
}

/// Reads the 128-bit number at `offset`, most significant byte first.
pub fn read_u128_be(data: &[u8], offset: usize) -> (x: Option<u128>)
    ensures
        x == u128_be_at(data@, offset as int),
{
    if fits(data.len(), offset, 16) {
        Some(read_be(data, offset, 16))
    } else {
        None
    }
}

/// Reads the 32-bit number at `offset`, most significant byte first.
pub fn read_u32_be(data: &[u8], offset: usize) -> (x: Option<u32>)
    ensures
        x == u32_be_at(data@, offset as int),
{
    if fits(data.len(), offset, 4) {
        proof {
            lemma_be_value_bound(data@.subrange(offset as int, offset + 4));
            lemma_pow256_values();
        }
        Some(read_be(data, offset, 4) as u32)
    } else {
        None
    }
}

/// Reads the 128-bit number at `offset`, least significant byte first.
pub fn read_u128_le(data: &[u8], offset: usize) -> (x: Option<u128>)
    ensures
        x == u128_le_at(data@, offset as int),
{
    if fits(data.len(), offset, 16) {
        Some(read_le(data, offset, 16))
    } else {
        None
    }
}

/// Reads the 64-bit number at `offset`, least significant byte first.
pub fn read_u64_le(data: &[u8], offset: usize) -> (x: Option<u64>)
    ensures
        x == u64_le_at(data@, offset as int),
{
    if fits(data.len(), offset, 8) {
        proof {
            lemma_le_value_bound(data@.subrange(offset as int, offset + 8));
            lemma_pow256_values();
        }
        Some(read_le(data, offset, 8) as u64)
    } else {
        None
    }
}

} // verus!
