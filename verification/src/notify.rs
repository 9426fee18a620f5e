//! The repaint rendezvous: the renderer signals, through a channel, that
//! a requested frame is ready, and the host's repaint blocks on the other
//! end until it is. At most one frame is ever in flight.

use vstd::prelude::*;

verus! {

/// Declares `std::sync::mpsc::Sender` so a channel end can be stored and
/// passed through verified code; the type stays opaque.
#[verifier::external_type_specification]
#[verifier::external_body]
#[verifier::reject_recursive_types(T)]
pub struct ExSender<T>(std::sync::mpsc::Sender<T>);

/// The renderer-side notifier: holds the sending end of the host's
/// frame-ready channel.
pub struct Notifier {
    pub tx: std::sync::mpsc::Sender<()>,
}

impl Notifier {
    /// A notifier over the sending end the host created.
    pub fn new(tx: std::sync::mpsc::Sender<()>) -> (r: Notifier)
        ensures
            r.tx == tx,
    {
        Notifier { tx }
    }

    /// Relies on `std::sync::mpsc::Sender::send` to deliver the
    /// frame-ready signal to the blocked repaint. A closed channel only
    /// means nobody waits anymore, so the send result is dropped.
    #[verifier::external_body]
    pub fn new_document_ready(&self) {
        let _ = self.tx.send(());
    }
}

} // verus!
