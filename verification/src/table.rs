//! Lines of a table whose columns are padded to a width.

use vstd::prelude::*;
use vstd::string::*;
use crate::text::{append_decimal, decimal_digits};

verus! {

/// `n` spaces.
pub open spec fn spaces(n: nat) -> Seq<char> {
    Seq::new(n, |i: int| ' ')
}

/// `cell`, followed by as many spaces as it lacks to `width` characters. A
/// cell of `width` characters or more stands as it is.
pub open spec fn spec_pad(cell: Seq<char>, width: nat) -> Seq<char> {
    if cell.len() >= width {
        cell
    } else {
        cell + spaces((width - cell.len()) as nat)
    }
}

/// A padded cell begins with the cell and is as wide as the column, or as
/// the cell where that is wider; what follows the cell is spaces.
pub proof fn lemma_pad(cell: Seq<char>, width: nat)
    ensures
        spec_pad(cell, width).len() == if cell.len() >= width {
            cell.len()
        } else {
            width
        },
        spec_pad(cell, width).take(cell.len() as int) == cell,
        forall|i: int|
            cell.len() <= i < spec_pad(cell, width).len() ==> spec_pad(cell, width)[i] == ' ',
{
    assert(spec_pad(cell, width).take(cell.len() as int) =~= cell);
}

/// Appends `cell` to `out`, padded on the right to `width` characters.
pub fn append_padded(out: &mut String, cell: &str, width: usize)
    ensures
        final(out)@ == old(out)@ + spec_pad(cell@, width as nat),
{
    let len = cell.unicode_len();
    out.append(cell);
    if len >= width {
        return ;
    }
    proof {
        reveal_strlit(" ");
    }
    let missing = width - len;
    let mut i: usize = 0;
    while i < missing
        invariant
            0 <= i <= missing,
            out@ == old(out)@ + cell@ + spaces(i as nat),
            " "@.len() == 1,
            " "@[0] == ' ',
        decreases missing - i,
    {
        out.append(" ");
        assert(out@ =~= old(out)@ + cell@ + spaces((i + 1) as nat));
        i += 1;
    }
    assert(out@ =~= old(out)@ + spec_pad(cell@, width as nat));
}

/// Appends the decimal numeral for `n`, padded on the right to `width`
/// characters.
pub fn append_number(out: &mut String, n: u128, width: usize)
    ensures
        final(out)@ == old(out)@ + spec_pad(decimal_digits(n as nat), width as nat),
{
    let mut cell = String::new();
    append_decimal(&mut cell, n);
    assert(cell@ =~= decimal_digits(n as nat));
    append_padded(out, cell.as_str(), width);
}

/// Appends the decimal numeral for `n` with `unit` behind it, padded on the
/// right to `width` characters.
pub fn append_quantity(out: &mut String, n: u128, unit: &str, width: usize)
    ensures
        final(out)@ == old(out)@ + spec_pad(decimal_digits(n as nat) + unit@, width as nat),
{
    let mut cell = String::new();
    append_decimal(&mut cell, n);
    cell.append(unit);
    assert(cell@ =~= decimal_digits(n as nat) + unit@);
    append_padded(out, cell.as_str(), width);
}

/// Three cells in columns of `width` characters.
pub open spec fn spec_row3(a: Seq<char>, b: Seq<char>, c: Seq<char>, width: nat) -> Seq<char> {
    spec_pad(a, width) + spec_pad(b, width) + spec_pad(c, width)
}

/// A line of three cells, each padded on the right to `width` characters.
pub fn row3(a: &str, b: &str, c: &str, width: usize) -> (line: String)
    ensures
        line@ == spec_row3(a@, b@, c@, width as nat),
{
    let mut line = String::new();
    append_padded(&mut line, a, width);
    append_padded(&mut line, b, width);
    append_padded(&mut line, c, width);
    assert(line@ =~= spec_row3(a@, b@, c@, width as nat));
    line
}

} // verus!
