//! Sine and cosine by table lookup, angles as `u16` where 65536 is a full turn.
use vstd::prelude::*;

verus! {

/// Entries in a sine table: one full turn.
pub const LOOKUP_SIZE: usize = 512;

/// Sine over one full turn in `LOOKUP_SIZE` steps, as 8.8 fixed point.
pub struct LookupTable {
    table: Vec<i16>,
}

impl LookupTable {
    pub closed spec fn view(&self) -> Seq<i16> {
        self.table@
    }

    pub open spec fn wf(&self) -> bool {
        self@.len() == LOOKUP_SIZE
    }

    pub fn new(table: Vec<i16>) -> (r: Self)
        requires
            table@.len() == LOOKUP_SIZE,
        ensures
            r.wf(),
            r@ == table@,
    {
        Self { table }
    }
}

/// Sine of `theta`: the table entry of its top nine bits.
pub fn sin(table: &LookupTable, theta: u16) -> (r: i16)
    requires
        table.wf(),
    ensures
        r == table@[theta as int / 128],
{
    let i: usize = (theta / 128) as usize;
    table.table[i]
}

/// Cosine of `theta`: the sine a quarter turn further on.
pub fn cos(table: &LookupTable, theta: u16) -> (r: i16)
    requires
        table.wf(),
    ensures
        r == table@[(theta as int / 128 + 128) % 512],
{
    let i: usize = ((theta / 128) as usize + 128) % LOOKUP_SIZE;
    table.table[i]
}

} // verus!
