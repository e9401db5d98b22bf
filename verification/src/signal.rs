//! The one-shot notification that tells the hosting thread to stop.

use vstd::prelude::*;

verus! {

/// The sending half of a channel of the standard library.
#[verifier::external_type_specification]
#[verifier::external_body]
#[verifier::reject_recursive_types(T)]
pub struct ExSender<T>(std::sync::mpsc::Sender<T>);

/// `Sender::send` with the unit value: whether the notification was taken,
/// which it is not once the receiving half is gone.
#[verifier::external_body]
pub(crate) fn notify(shutdown_tx: &std::sync::mpsc::Sender<()>) -> (delivered: bool) {
    shutdown_tx.send(()).is_ok()
}

} // verus!
