//! The sending half of the channel that carries snapshots from the bridge
//! thread to the asynchronous side.
use vstd::prelude::*;
use tokio::sync::mpsc::UnboundedSender;
use crate::device::AudioMessage;

verus! {

/// `tokio::sync::mpsc::UnboundedSender`, carried through as an opaque value.
#[verifier::external_type_specification]
#[verifier::external_body]
#[verifier::reject_recursive_types(T)]
pub struct ExUnboundedSender<T>(UnboundedSender<T>);

/// Calls `UnboundedSender::send`, which queues the message without
/// blocking, and reports whether the channel took it. The channel refuses a
/// message once its receiving half is closed or dropped, which is for the
/// other side to decide, so nothing is claimed of the answer.
#[verifier::external_body]
pub(crate) fn send_message(
    tx: &UnboundedSender<AudioMessage>,
    message: AudioMessage,
) -> (taken: bool) {
    tx.send(message).is_ok()
}

} // verus!
