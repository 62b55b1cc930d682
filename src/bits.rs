use vstd::prelude::*;

use crate::text::{push_str, string_of};

verus! {

/// Whether bit `n` (0 is the least significant) of `value` is one.
pub open spec fn bit_is_set(value: u32, n: nat) -> bool {
    (value >> (n as u32)) & 1 == 1
}

/// The widths that a flag grid may have.
pub open spec fn valid_width(w: nat) -> bool {
    w == 8 || w == 16 || w == 32
}

/// Cell `i` of the grid for bit `n` in a field of `w` bits: the bit's digit at
/// position `w - 1 - n`, a dot elsewhere.
pub open spec fn grid_cell(value: u32, n: nat, w: nat, i: int) -> char {
    if i == w - 1 - n {
        if bit_is_set(value, n) {
            '1'
        } else {
            '0'
        }
    } else {
        '.'
    }
}

/// The cells of the grid, most significant bit first.
pub open spec fn grid_cells(value: u32, n: nat, w: nat) -> Seq<char> {
    Seq::new(w, |i: int| grid_cell(value, n, w, i))
}

/// `cells` in groups of four, separated by single spaces.
pub open spec fn nibbles(cells: Seq<char>) -> Seq<char>
    decreases cells.len(),
{
    if cells.len() <= 4 {
        cells
    } else {
        cells.subrange(0, 4) + seq![' '] + nibbles(cells.subrange(4, cells.len() as int))
    }
}

/// The annotated line for one flag: grid, name, and whether it is set.
pub open spec fn flag_line(name: Seq<char>, value: u32, n: nat, w: nat) -> Seq<char> {
    nibbles(grid_cells(value, n, w)) + " = "@ + name + ": "@ + if bit_is_set(value, n) {
        "Set"@
    } else {
        "Not Set"@
    }
}

fn push_nibbles(out: &mut Vec<char>, cells: &[char])
    ensures
        final(out)@ == old(out)@ + nibbles(cells@),
    decreases cells@.len(),
{
    if cells.len() <= 4 {
        out.extend_from_slice(cells);
    } else {
        let ghost start = out@;
        out.extend_from_slice(&cells[0..4]);
        out.push(' ');
        push_nibbles(out, &cells[4..cells.len()]);
        assert(out@ =~= start + nibbles(cells@));
    }
}

/// Appends the annotated line for bit `bit_n` of `value` in a field of `flags_size` bits.
pub fn push_flag_line(out: &mut Vec<char>, name: &str, value: u32, bit_n: usize, flags_size: usize)
    requires
        valid_width(flags_size as nat),
        bit_n < flags_size,
    ensures
        final(out)@ == old(out)@ + flag_line(name@, value, bit_n as nat, flags_size as nat),
{
    let set = (value >> (bit_n as u32)) & 1 == 1;
    let mut cells: Vec<char> = Vec::new();
    let mut i: usize = 0;
    while i < flags_size
        invariant
            i <= flags_size,
            bit_n < flags_size,
            set == bit_is_set(value, bit_n as nat),
            cells@ =~= grid_cells(value, bit_n as nat, flags_size as nat).subrange(0, i as int),
        decreases flags_size - i,
    {
        if i == flags_size - 1 - bit_n {
            cells.push(if set { '1' } else { '0' });
        } else {
            cells.push('.');
        }
        i = i + 1;
    }
    assert(cells@ =~= grid_cells(value, bit_n as nat, flags_size as nat));
    let ghost start = out@;
    push_nibbles(out, cells.as_slice());
    push_str(out, " = ");
    push_str(out, name);
    push_str(out, ": ");
    if set {
        push_str(out, "Set");
    } else {
        push_str(out, "Not Set");
    }
    assert(out@ =~= start + flag_line(name@, value, bit_n as nat, flags_size as nat));
}

/// The annotated line for bit `bit_n` (0 is the least significant) of `value`
/// in a field of `flags_size` bits.
pub fn to_bitflags(name: &str, value: u32, bit_n: usize, flags_size: usize) -> (r: String)
    requires
        valid_width(flags_size as nat),
        bit_n < flags_size,
    ensures
        r@ == flag_line(name@, value, bit_n as nat, flags_size as nat),
{
    let mut out: Vec<char> = Vec::new();
    push_flag_line(&mut out, name, value, bit_n, flags_size);
    string_of(out.as_slice())
}

/// The grid for bit `n` of a `w`-bit field has `w` cells: the digit of that bit
/// at position `w - 1 - n`, and dots in every other cell, whatever the other
/// bits of the value are.
pub proof fn lemma_flag_line_position(name: Seq<char>, value: u32, n: nat, w: nat)
    requires
        valid_width(w),
        n < w,
    ensures
        grid_cells(value, n, w).len() == w,
        grid_cells(value, n, w)[w - 1 - n] == (if (value >> (n as u32)) & 1 == 1 { '1' } else { '0' }),
        forall|i: int| 0 <= i < w && i != w - 1 - n ==> #[trigger] grid_cells(value, n, w)[i] == '.',
{
}

/// The line for one flag depends on that flag's bit alone: two values that
/// agree on bit `n` give the same line.
pub proof fn lemma_flag_line_reads_one_bit(name: Seq<char>, v1: u32, v2: u32, n: nat, w: nat)
    requires
        valid_width(w),
        n < w,
        bit_is_set(v1, n) == bit_is_set(v2, n),
    ensures
        flag_line(name, v1, n, w) == flag_line(name, v2, n, w),
{
    assert(grid_cells(v1, n, w) =~= grid_cells(v2, n, w));
}

} // verus!
