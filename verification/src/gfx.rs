//! An earlier display surface: the same pixel-update records with the
//! channel port exposed directly.

use vstd::prelude::*;
use std::sync::mpsc::Receiver;

verus! {

/// One pixel-state record of a display batch: coordinates and the new
/// binary value (`0` dark, `1` lit).
#[derive(Debug, Copy, Clone, PartialEq)]
pub struct Pixel {
    pub x: i32,
    pub y: i32,
    pub value: u8,
}

impl Pixel {
    pub fn new(x: i32, y: i32, value: u8) -> (p: Pixel)
        ensures
            p == (Pixel { x, y, value }),
    {
        Pixel { x, y, value }
    }
}

/// The consuming half of the display channel, port exposed.
#[derive(Debug)]
pub struct Gfx {
    pub port: Receiver<Vec<Pixel>>,
}

} // verus!
