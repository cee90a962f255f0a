//! The display surface: pixel-update records and the consuming end of the
//! one-way display channel.

use vstd::prelude::*;
use std::sync::mpsc::{Receiver, Sender};

verus! {

/// One pixel-state record of a display batch: coordinates and the new
/// binary value (`0` dark, `1` lit).
#[derive(Debug, Copy, Clone, PartialEq)]
pub struct Pixel {
    pub x: i32,
    pub y: i32,
    pub value: u8,
}

impl Pixel {
    pub fn new(x: i32, y: i32, value: u8) -> (p: Pixel)
        ensures
            p == (Pixel { x, y, value }),
    {
        Pixel { x, y, value }
    }
}

/// The consuming half of the display channel; the producing half is handed
/// to the machine as its display bus.
#[derive(Debug)]
pub struct Display {
    pub port: Receiver<Vec<Pixel>>,
}

impl Display {
    /// Builds a display together with the bus on which the machine will
    /// publish pixel batches.
    pub fn build() -> (r: (Sender<Vec<Pixel>>, Display)) {
        let (transmitter, port): (Sender<Vec<Pixel>>, Receiver<Vec<Pixel>>) =
            std::sync::mpsc::channel();

        let display = Display { port };

        (transmitter, display)
    }
}

/// Relies on std::sync::mpsc::Sender::send: a non-blocking enqueue that
/// fails only when the receiving half has been dropped. Returns whether the
/// batch was delivered; nothing is assumed of the outcome.
#[verifier::external_body]
pub(crate) fn send_pixels(bus: &Sender<Vec<Pixel>>, pixels: Vec<Pixel>) -> bool {
    bus.send(pixels).is_ok()
}

} // verus!
