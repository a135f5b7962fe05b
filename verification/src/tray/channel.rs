//! The two queues the engine hands its output to: a bounded broadcast channel
//! for notifications and an unbounded queue for activation intents. Both are
//! tokio's; nothing in this file is proved. The engine keeps the one sending
//! handle of each and never copies it, so what a handle was given is what its
//! channel was given.

use vstd::prelude::*;
use tokio::sync::{broadcast, mpsc};
use crate::tray::event::{Notification, NotificationView};
use crate::tray::router::TrayAction;

verus! {

/// `tokio::sync::broadcast::Sender`, carried as it is.
#[verifier::external_type_specification]
#[verifier::external_body]
#[verifier::reject_recursive_types(T)]
pub struct ExBroadcastSender<T>(broadcast::Sender<T>);

/// `tokio::sync::broadcast::Receiver`, carried as it is.
#[verifier::external_type_specification]
#[verifier::external_body]
#[verifier::reject_recursive_types(T)]
pub struct ExBroadcastReceiver<T>(broadcast::Receiver<T>);

/// `tokio::sync::mpsc::UnboundedSender`, carried as it is.
#[verifier::external_type_specification]
#[verifier::external_body]
#[verifier::reject_recursive_types(T)]
pub struct ExUnboundedSender<T>(mpsc::UnboundedSender<T>);

/// `tokio::sync::mpsc::UnboundedReceiver`, carried as it is.
#[verifier::external_type_specification]
#[verifier::external_body]
#[verifier::reject_recursive_types(T)]
pub struct ExUnboundedReceiver<T>(mpsc::UnboundedReceiver<T>);

/// Everything that the sender was given to send since its channel was opened,
/// in the order in which it was given. A value that was given while nobody
/// was subscribed is part of it.
pub uninterp spec fn handed(tx: broadcast::Sender<Notification>) -> Seq<NotificationView>;

/// Whether the receiver is subscribed to the channel of the sender.
pub uninterp spec fn listens(
    tx: broadcast::Sender<Notification>,
    rx: broadcast::Receiver<Notification>,
) -> bool;

/// Every intent that the sender was given since its queue was opened, in the
/// order in which it was given. An intent that came back is part of it.
pub uninterp spec fn submitted(tx: mpsc::UnboundedSender<TrayAction>) -> Seq<TrayAction>;

/// `tokio::sync::broadcast::channel`, keeping the sending half. Tokio panics
/// on a capacity of zero or above `usize::MAX / 2`, which the precondition
/// leaves out. The sender of a new channel has been given nothing yet.
#[verifier::external_body]
pub(crate) fn open_broadcast(capacity: usize) -> (tx: broadcast::Sender<Notification>)
    requires
        0 < capacity <= usize::MAX / 2,
    ensures
        handed(tx) == Seq::<NotificationView>::empty(),
{
    broadcast::channel(capacity).0
}

/// `tokio::sync::broadcast::Sender::send`. The value is one more that the
/// sender was given, and the sender stays on its channel. Tokio returns the
/// number of receivers that were subscribed when the value was queued, and
/// fails only when there was none; so a count that comes back is at least
/// one. Whether any receiver goes on to read the value is not claimed.
#[verifier::external_body]
pub(crate) fn broadcast_send(tx: &mut broadcast::Sender<Notification>, note: Notification) -> (r:
    Option<usize>)
    ensures
        handed(*final(tx)) == handed(*old(tx)).push(note@),
        forall|rx: broadcast::Receiver<Notification>|
            #[trigger] listens(*final(tx), rx) == listens(*old(tx), rx),
        r matches Some(receivers) ==> receivers >= 1,
{
    tx.send(note).ok()
}

/// `tokio::sync::broadcast::Sender::subscribe`: a receiver on the channel of
/// the sender, which sees what is sent after this call. Tokio panics once a
/// quarter of `usize::MAX` receivers are alive at once, more than memory can
/// hold.
#[verifier::external_body]
pub(crate) fn broadcast_subscribe(tx: &broadcast::Sender<Notification>) -> (rx: broadcast::Receiver<
    Notification,
>)
    ensures
        listens(*tx, rx),
{
    tx.subscribe()
}

/// `tokio::sync::mpsc::unbounded_channel`. The sender of a new queue has been
/// given nothing yet.
#[verifier::external_body]
pub(crate) fn open_queue() -> (r: (
    mpsc::UnboundedSender<TrayAction>,
    mpsc::UnboundedReceiver<TrayAction>,
))
    ensures
        submitted(r.0) == Seq::<TrayAction>::empty(),
{
    mpsc::unbounded_channel()
}

/// `tokio::sync::mpsc::UnboundedSender::send`. The intent is one more that
/// the sender was given. Tokio never waits here; when the receiving half is
/// closed it hands the value back. (It ends the process where more values are
/// queued than half of `usize::MAX`, more than memory can hold.)
#[verifier::external_body]
pub(crate) fn queue_send(tx: &mut mpsc::UnboundedSender<TrayAction>, intent: TrayAction) -> (r:
    Result<(), TrayAction>)
    ensures
        submitted(*final(tx)) == submitted(*old(tx)).push(intent),
        r matches Err(back) ==> back == intent,
{
    tx.send(intent).map_err(|e| e.0)
}

} // verus!
