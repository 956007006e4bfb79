use vstd::prelude::*;

verus! {

/// The sixteen colours of the machine's palette.
#[derive(Clone, Copy, PartialEq, Eq, Debug, Structural)]
pub enum Color {
    Black,
    White,
    Red,
    Cyan,
    Pink,
    Green,
    Blue,
    Yellow,
    Orange,
    Brown,
    LightRed,
    DarkGrey,
    MediumGrey,
    LightGreen,
    LightBlue,
    LightGray,
}

/// One character cell that a video device asks the host display to draw.
#[derive(Clone, Copy, PartialEq, Eq, Debug, Structural)]
pub struct SymbolWrite {
    pub x: u16,
    pub y: u16,
    pub symbol: char,
    pub color: Color,
}

/// A host display that receives character-cell writes.
pub trait Monitor {
    fn clean(&mut self);

    fn set_symbol(&mut self, x: u16, y: u16, s: char, color: Color);
}

/// Hands each write, in order, to the display.
pub fn present<M: Monitor>(monitor: &mut M, writes: &Vec<SymbolWrite>) {
    let mut i: usize = 0;
    while i < writes.len()
        invariant
            i <= writes.len(),
        decreases writes.len() - i,
    {
        let w = writes[i];
        monitor.set_symbol(w.x, w.y, w.symbol, w.color);
        i = i + 1;
    }
}

} // verus!
