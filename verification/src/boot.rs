//! Construction of the graphics surface with its data bus.

use vstd::prelude::*;
use std::sync::mpsc::{Receiver, Sender};
use crate::gfx::{Gfx, Pixel};

verus! {

/// Builds a graphics surface together with the bus on which the machine
/// will publish pixel batches.
pub fn gfx() -> (r: (Sender<Vec<Pixel>>, Gfx)) {
    let (transmitter, port): (Sender<Vec<Pixel>>, Receiver<Vec<Pixel>>) =
        std::sync::mpsc::channel();

    let gfx = Gfx { port };

    (transmitter, gfx)
}

} // verus!
