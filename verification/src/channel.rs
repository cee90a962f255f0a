//! Trusted declarations for the standard library's mpsc channels, the
//! one-way message paths between the machine, its clock and its display.

use vstd::prelude::*;

verus! {

#[verifier::external_type_specification]
#[verifier::external_body]
#[verifier::reject_recursive_types(T)]
pub struct ExSender<T>(std::sync::mpsc::Sender<T>);

#[verifier::external_type_specification]
#[verifier::external_body]
#[verifier::reject_recursive_types(T)]
pub struct ExReceiver<T>(std::sync::mpsc::Receiver<T>);

/// Relies on std::sync::mpsc::channel: creates the connected sending and
/// receiving halves of a new unbounded, asynchronous queue. Both halves are
/// opaque here; nothing is assumed of them.
pub assume_specification<T>[ std::sync::mpsc::channel::<T> ]() -> (r: (
    std::sync::mpsc::Sender<T>,
    std::sync::mpsc::Receiver<T>,
));

} // verus!
