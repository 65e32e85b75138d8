use vstd::prelude::*;

use crossbeam_channel::{Receiver, Sender};

use crate::bats_lib::plugin::PluginParams;
use crate::bats_lib::session::Session;

pub mod command;
pub mod notification;

use command::{reached_by_commands, runs_through, Command, CommandView};
use notification::Notification;

verus! {

#[verifier::external_type_specification]
#[verifier::external_body]
#[verifier::reject_recursive_types(T)]
pub struct ExSender<T>(Sender<T>);

#[verifier::external_type_specification]
#[verifier::external_body]
#[verifier::reject_recursive_types(T)]
pub struct ExReceiver<T>(Receiver<T>);

/// The capacity of the command and notification queues.
pub const QUEUE_CAPACITY: usize = 1024;

/// Calls `crossbeam_channel::bounded`: a new channel that holds at most `cap` messages. The
/// contents of a channel are shared with other threads, so nothing is claimed of them; `cap` is
/// kept small enough for the allocation of the queue to succeed.
#[verifier::external_body]
fn bounded_channel<T>(cap: usize) -> (r: (Sender<T>, Receiver<T>))
    requires
        0 < cap <= QUEUE_CAPACITY,
{
    crossbeam_channel::bounded(cap)
}

/// Calls `crossbeam_channel::Receiver::len`: the number of messages queued at the time of the
/// call. Other threads may change it at any time, so nothing is claimed of the result.
#[verifier::external_body]
fn queued_len<T>(r: &Receiver<T>) -> usize {
    r.len()
}

/// Calls `crossbeam_channel::Receiver::try_recv`: the next queued message, or `None` if the
/// channel is empty or disconnected. What is queued depends on other threads, so nothing is
/// claimed of the result.
#[verifier::external_body]
fn try_receive<T>(r: &Receiver<T>) -> Option<T> {
    r.try_recv().ok()
}

/// Calls `crossbeam_channel::Sender::try_send`: queue `msg` without blocking; false if the
/// channel is full or disconnected. That depends on other threads, so nothing is claimed.
#[verifier::external_body]
fn try_queue<T>(s: &Sender<T>, msg: T) -> bool {
    s.try_send(msg).is_ok()
}

/// Calls `crossbeam_channel::Sender::send`: queue `msg`, blocking while the channel is full;
/// false if the channel is disconnected. That depends on other threads, so nothing is claimed.
#[verifier::external_body]
fn queue<T>(s: &Sender<T>, msg: T) -> bool {
    s.send(msg).is_ok()
}

/// Send commands to a bats instance.
#[verifier::reject_recursive_types(V)]
#[verifier::reject_recursive_types(P)]
pub struct CommandSender<V, P> {
    /// The channel to send commands to.
    sender: Sender<Command<V, P>>,
    /// The channel to receive notifications from.
    notifications: Receiver<Notification<V, P>>,
}

/// Receive commands for a bats instance.
#[verifier::reject_recursive_types(V)]
#[verifier::reject_recursive_types(P)]
pub struct CommandReceiver<V, P> {
    /// The channel to receive commands from.
    receiver: Receiver<Command<V, P>>,
    /// The channel to send notifications to.
    notifications: Sender<Notification<V, P>>,
}

/// Create a new `CommandSender` and `CommandReceiver`, connected by a command queue and a
/// notification queue of `QUEUE_CAPACITY` messages each.
pub fn new_async_commander<V, P>() -> (r: (CommandSender<V, P>, CommandReceiver<V, P>)) {
    let (sender, receiver) = bounded_channel(QUEUE_CAPACITY);
    let (n_sender, n_receiver) = bounded_channel(QUEUE_CAPACITY);
    (
        CommandSender { sender, notifications: n_receiver },
        CommandReceiver { receiver, notifications: n_sender },
    )
}

impl<V, P> CommandSender<V, P> {
    /// Send a single command. Returns false if the receiving side is gone.
    pub fn send(&self, cmd: Command<V, P>) -> (sent: bool) {
        queue(&self.sender, cmd)
    }

    /// Get the notifications that are pending, at most as many as were queued when the call
    /// started.
    pub fn notifications(&self) -> (r: Vec<Notification<V, P>>) {
        let pending = queued_len(&self.notifications);
        let mut out: Vec<Notification<V, P>> = Vec::new();
        let mut i: usize = 0;
        while i < pending
            invariant
                i <= pending,
                out@.len() <= i,
            decreases pending - i,
        {
            match try_receive(&self.notifications) {
                Some(n) => out.push(n),
                None => break,
            }
            i = i + 1;
        }
        out
    }
}

impl<V: Copy, P: PluginParams<V>> CommandReceiver<V, P> {
    /// Execute the commands that are queued, at most as many as were queued when the call
    /// started, and queue the undo command of each as a notification. The new session is the
    /// one that executing some sequence of commands in order leads to (which commands were
    /// queued depends on other threads), so no track is added or removed.
    pub fn execute_all(&self, b: &mut Session<V, P>)
        ensures
            final(b).tracks@.len() == old(b).tracks@.len(),
            reached_by_commands(old(b)@, final(b)@),
    {
        let pending = queued_len(&self.receiver);
        let mut i: usize = 0;
        let ghost mut cmds: Seq<CommandView<V, P>> = Seq::empty();
        let ghost mut trace: Seq<crate::bats_lib::session::SessionView<V, P>> = seq![b@];
        while i < pending
            invariant
                i <= pending,
                b.tracks@.len() == old(b).tracks@.len(),
                runs_through(cmds, trace),
                trace[0] == old(b)@,
                trace.last() == b@,
            decreases pending - i,
        {
            match try_receive(&self.receiver) {
                Some(cmd) => {
                    let ghost c = cmd@;
                    let ghost before = b@;
                    let notification = notification::execute_and_notify(cmd, b);
                    proof {
                        let cmds2 = cmds.push(c);
                        let trace2 = trace.push(b@);
                        assert forall|k: int| 0 <= k < cmds2.len() implies #[trigger] command::executes_to(
                            cmds2[k],
                            trace2[k],
                            trace2[k + 1],
                        ) by {
                            if k < cmds.len() {
                                assert(cmds2[k] == cmds[k]);
                                assert(trace2[k] == trace[k]);
                                assert(trace2[k + 1] == trace[k + 1]);
                            } else {
                                assert(trace2[k] == before);
                            }
                        }
                        cmds = cmds2;
                        trace = trace2;
                    }
                    let _ = try_queue(&self.notifications, notification);
                },
                None => break,
            }
            i = i + 1;
        }
        assert(runs_through(cmds, trace) && trace[0] == old(b)@ && trace.last() == b@);
    }
}

} // verus!
