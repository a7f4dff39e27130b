//! Memory dumps: the words read from consecutive addresses, each reported on
//! a line of its own as `Addr 0x<address>: 0x<value>` in eight lower-case
//! hexadecimal digits.

use vstd::prelude::*;

verus! {

/// One reported word and the address it was read from.
#[derive(Clone, Copy, Debug, PartialEq, Eq, Structural)]
pub struct DumpRow {
    pub address: u32,
    pub value: u32,
}

/// Whether `words` 32-bit words from `loc` on all have addresses that fit in
/// 32 bits.
pub open spec fn dump_fits(loc: u32, words: nat) -> bool {
    words == 0 || loc + 4 * (words - 1) <= u32::MAX
}

/// The rows that report `data`, read from consecutive words starting at
/// `loc`, in address order.
pub open spec fn rows_spec(loc: u32, data: Seq<u32>) -> Seq<DumpRow> {
    Seq::new(data.len(), |i: int| DumpRow { address: (loc + 4 * i) as u32, value: data[i] })
}

/// The ASCII hexadecimal digit, lower case, of a value below 16.
pub open spec fn hex_digit(d: u32) -> u8 {
    if d < 10 {
        (d + 0x30) as u8
    } else {
        (d - 10 + 0x61) as u8
    }
}

/// The four bits of `v` that start at bit `shift`.
pub open spec fn nibble(v: u32, shift: u32) -> u32 {
    (v >> shift) & 0xf
}

/// `v` in eight hexadecimal digits, most significant first.
pub open spec fn hex8(v: u32) -> Seq<u8> {
    seq![
        hex_digit(nibble(v, 28)),
        hex_digit(nibble(v, 24)),
        hex_digit(nibble(v, 20)),
        hex_digit(nibble(v, 16)),
        hex_digit(nibble(v, 12)),
        hex_digit(nibble(v, 8)),
        hex_digit(nibble(v, 4)),
        hex_digit(nibble(v, 0)),
    ]
}

/// The ASCII text `Addr 0x`.
pub open spec fn address_label() -> Seq<u8> {
    seq![0x41u8, 0x64u8, 0x64u8, 0x72u8, 0x20u8, 0x30u8, 0x78u8]
}

/// The ASCII text `: 0x`.
pub open spec fn value_label() -> Seq<u8> {
    seq![0x3au8, 0x20u8, 0x30u8, 0x78u8]
}

/// The text of a row: `Addr 0x`, the address, `: 0x`, the value.
pub open spec fn line_spec(row: DumpRow) -> Seq<u8> {
    address_label() + hex8(row.address) + value_label() + hex8(row.value)
}

/// Whether a dump of `words` words from `loc` has all its addresses in
/// 32 bits.
pub fn dump_range_valid(loc: u32, words: u32) -> (r: bool)
    ensures
        r == dump_fits(loc, words as nat),
{
    words == 0 || (words - 1) as u64 * 4 + loc as u64 <= u32::MAX as u64
}

/// The rows that report the words of `data`, read from `loc` on: one row per
/// word, in address order, each at the next word's address.
pub fn dump_rows(loc: u32, data: &Vec<u32>) -> (r: Vec<DumpRow>)
    requires
        dump_fits(loc, data@.len()),
    ensures
        r@ == rows_spec(loc, data@),
{
    let mut rows: Vec<DumpRow> = Vec::new();
    let mut i: usize = 0;
    while i < data.len()
        invariant
            i <= data@.len(),
            dump_fits(loc, data@.len()),
            rows@ =~= rows_spec(loc, data@.subrange(0, i as int)),
        decreases data@.len() - i,
    {
        let address = loc + 4 * (i as u32);
        rows.push(DumpRow { address, value: data[i] });
        i = i + 1;
        assert(rows@ =~= rows_spec(loc, data@.subrange(0, i as int)));
    }
    assert(data@.subrange(0, i as int) =~= data@);
    rows
}

fn hex_digit_of(v: u32, shift: u32) -> (r: u8)
    requires
        shift <= 28,
    ensures
        r == hex_digit(nibble(v, shift)),
{
    let d = (v >> shift) & 0xf;
    assert(d < 16) by (bit_vector)
        requires
            d == (v >> shift) & 0xf,
    ;
    if d < 10 {
        (d + 0x30) as u8
    } else {
        (d - 10 + 0x61) as u8
    }
}

fn push_hex8(out: &mut Vec<u8>, v: u32)
    ensures
        final(out)@ == old(out)@ + hex8(v),
{
    out.push(hex_digit_of(v, 28));
    out.push(hex_digit_of(v, 24));
    out.push(hex_digit_of(v, 20));
    out.push(hex_digit_of(v, 16));
    out.push(hex_digit_of(v, 12));
    out.push(hex_digit_of(v, 8));
    out.push(hex_digit_of(v, 4));
    out.push(hex_digit_of(v, 0));
    assert(out@ =~= old(out)@ + hex8(v));
}

impl DumpRow {
    /// The row's line of text, in ASCII, without the line break.
    pub fn line(&self) -> (r: Vec<u8>)
        ensures
            r@ == line_spec(*self),
    {
        let mut out: Vec<u8> = Vec::new();
        // `Addr 0x`
        out.push(0x41u8);
        out.push(0x64u8);
        out.push(0x64u8);
        out.push(0x72u8);
        out.push(0x20u8);
        out.push(0x30u8);
        out.push(0x78u8);
        push_hex8(&mut out, self.address);
        // `: 0x`
        out.push(0x3au8);
        out.push(0x20u8);
        out.push(0x30u8);
        out.push(0x78u8);
        push_hex8(&mut out, self.value);
        assert(out@ =~= line_spec(*self));
        out
    }
}

/// A dump reports exactly the words read, in address order: row `i` holds the
/// word read at `loc + 4 * i`, consecutive rows are one word apart, and an
/// empty read reports no row at all.
pub proof fn lemma_dump_reports_in_order(loc: u32, data: Seq<u32>)
    requires
        dump_fits(loc, data.len()),
    ensures
        rows_spec(loc, data).len() == data.len(),
        data.len() == 0 ==> rows_spec(loc, data) == Seq::<DumpRow>::empty(),
        forall|i: int|
            0 <= i < data.len() ==> (#[trigger] rows_spec(loc, data)[i]).value == data[i]
                && rows_spec(loc, data)[i].address == loc + 4 * i,
        forall|i: int|
            0 <= i < data.len() - 1 ==> (#[trigger] rows_spec(loc, data)[i + 1]).address
                == rows_spec(loc, data)[i].address + 4,
{
    if data.len() == 0 {
        assert(rows_spec(loc, data) =~= Seq::<DumpRow>::empty());
    }
}

} // verus!
