//! The seal-command channel: a bounded, ordered queue between the
//! manual-seal timer and the scheduler's consumption loop. The queue
//! itself is the one from `futures::channel::mpsc`, as the node wires it,
//! held behind trusted wrappers; everything around it is verified.

use vstd::prelude::*;

verus! {

/// An explicit "produce and seal one block now" instruction, consumed
/// exactly once by the authoring loop.
#[derive(Clone, Copy, Debug, PartialEq, Eq)]
pub struct SealCommand {
    /// Author a block even if the pool yields no transaction.
    pub create_empty: bool,
    /// Finalize the block as soon as it is imported.
    pub finalize: bool,
    /// Author on this parent; absent means the current best head.
    pub parent_hash: Option<u64>,
    /// Whether a caller is waiting for the outcome of this command. The
    /// consumption loop returns every command's outcome either way; this
    /// field only records the caller's interest, for whoever delivers
    /// the outcomes onwards.
    pub wants_response: bool,
}

/// The command the manual-seal timer emits once per tick: an empty block
/// is allowed, the block is finalized at once, it goes on the best head,
/// and nobody waits for a response.
pub open spec fn spec_timer_command() -> SealCommand {
    SealCommand { create_empty: true, finalize: true, parent_hash: Option::None, wants_response: false }
}

pub fn timer_command() -> (c: SealCommand)
    ensures
        c == spec_timer_command(),
{
    SealCommand { create_empty: true, finalize: true, parent_hash: Option::None, wants_response: false }
}

/// How many commands the seal-command channel buffers; fixed at startup.
pub const SEAL_COMMAND_BUFFER: usize = 1024;

/// A send attempt found the queue full: the scheduler is not keeping
/// pace. The tick's command was not enqueued and must not be treated as
/// delivered.
#[derive(Clone, Copy, Debug, PartialEq, Eq, Structural)]
pub struct ChannelFull;

/// The bounded first-in-first-out seal-command queue. It owns both ends
/// of one `futures` channel, so the channel can neither gain another
/// sender nor be disconnected while the value lives.
#[verifier::external_body]
pub struct SealCommandChannel {
    sender: futures::channel::mpsc::Sender<SealCommand>,
    receiver: futures::channel::mpsc::Receiver<SealCommand>,
}

/// The queued commands, oldest first.
pub uninterp spec fn channel_contents(c: SealCommandChannel) -> Seq<SealCommand>;

/// The buffer size the queue was created with.
pub uninterp spec fn channel_buffer(c: SealCommandChannel) -> nat;

/// Relies on futures::channel::mpsc::channel: creates an empty bounded
/// queue with the given buffer. The bound on `buffer` stays far below the
/// size that the channel constructor refuses.
#[verifier::external_body]
fn new_channel(buffer: usize) -> (c: SealCommandChannel)
    requires
        buffer < 0x3FFF_FFFF,
    ensures
        channel_contents(c) == Seq::<SealCommand>::empty(),
        channel_buffer(c) == buffer,
{
    let (sender, receiver) = futures::channel::mpsc::channel(buffer);
    SealCommandChannel { sender, receiver }
}

/// Relies on futures::channel::mpsc::Sender::try_send: a send appends
/// to the queue, and with the one sender held inside the channel value
/// it fails exactly when the queue holds more commands than its buffer
/// size (the sender's own guaranteed slot accounts for the one extra).
/// So the queue never holds more than the buffer size plus one.
#[verifier::external_body]
pub(crate) fn channel_try_send(c: &mut SealCommandChannel, cmd: SealCommand) -> (r: Result<
    (),
    ChannelFull,
>)
    ensures
        channel_buffer(*final(c)) == channel_buffer(*old(c)),
        r is Ok ==> channel_contents(*final(c)) == channel_contents(*old(c)).push(cmd),
        r is Err ==> channel_contents(*final(c)) == channel_contents(*old(c)),
        r is Err <==> channel_contents(*old(c)).len() > channel_buffer(*old(c)),
{
    match c.sender.try_send(cmd) {
        Ok(()) => Ok(()),
        Err(_) => Err(ChannelFull),
    }
}

/// Relies on futures::channel::mpsc::Receiver::try_recv: removes and
/// returns the oldest queued command; the receive order is the send
/// order. With both ends held inside the channel value, a queued command
/// is always ready and an empty queue is the only way to come back empty.
#[verifier::external_body]
pub(crate) fn channel_try_recv(c: &mut SealCommandChannel) -> (r: Option<SealCommand>)
    ensures
        channel_buffer(*final(c)) == channel_buffer(*old(c)),
        channel_contents(*old(c)).len() == 0 ==> r is None && channel_contents(*final(c))
            == channel_contents(*old(c)),
        channel_contents(*old(c)).len() > 0 ==> r == Some(channel_contents(*old(c))[0])
            && channel_contents(*final(c)) == channel_contents(*old(c)).drop_first(),
{
    match c.receiver.try_recv() {
        Ok(cmd) => Some(cmd),
        Err(_) => Option::None,
    }
}

/// Creates the node's seal-command channel, empty, with the fixed buffer.
pub fn seal_command_channel() -> (c: SealCommandChannel)
    ensures
        channel_contents(c) == Seq::<SealCommand>::empty(),
        channel_buffer(c) == SEAL_COMMAND_BUFFER as nat,
{
    new_channel(SEAL_COMMAND_BUFFER)
}

/// One timer tick's produce attempt: enqueues one seal command. A full
/// queue is surfaced, never swallowed; the caller reports it as fatal for
/// this tick and may still attempt the next tick. The queue stays
/// bounded: a tick enqueues only while no more than the buffered number
/// of commands is waiting.
pub fn enqueue_tick(c: &mut SealCommandChannel) -> (r: Result<(), ChannelFull>)
    ensures
        channel_buffer(*final(c)) == channel_buffer(*old(c)),
        r is Ok ==> channel_contents(*final(c)) == channel_contents(*old(c)).push(
            spec_timer_command(),
        ),
        r is Err ==> channel_contents(*final(c)) == channel_contents(*old(c)),
        r is Err <==> channel_contents(*old(c)).len() > channel_buffer(*old(c)),
{
    channel_try_send(c, timer_command())
}

/// How many timer ticks fall in an observation window: one per full
/// interval.
pub fn ticks_in_window(window_ms: u64, interval_ms: u64) -> (n: u64)
    requires
        interval_ms > 0,
    ensures
        n == window_ms / interval_ms,
{
    window_ms / interval_ms
}

/// The timer task's work over a whole window, in one piece: one enqueue
/// per tick, in order. It stops early only when the queue is full, and
/// says how many commands went in; a queue with room for every tick takes
/// them all, and the queue never grows past its bound.
pub fn enqueue_timer_ticks(c: &mut SealCommandChannel, ticks: u64) -> (sent: u64)
    ensures
        sent <= ticks,
        channel_buffer(*final(c)) == channel_buffer(*old(c)),
        channel_contents(*final(c)) == channel_contents(*old(c)) + Seq::new(
            sent as nat,
            |i: int| spec_timer_command(),
        ),
        sent < ticks ==> channel_contents(*old(c)).len() + sent > channel_buffer(*old(c)),
        channel_contents(*old(c)).len() + ticks <= channel_buffer(*old(c)) + 1 ==> sent == ticks,
        channel_contents(*old(c)).len() <= channel_buffer(*old(c)) + 1 ==> channel_contents(
            *final(c),
        ).len() <= channel_buffer(*old(c)) + 1,
{
    let mut sent: u64 = 0;
    proof {
        assert(channel_contents(*c) =~= channel_contents(*old(c)) + Seq::new(
            0nat,
            |i: int| spec_timer_command(),
        ));
    }
    while sent < ticks
        invariant
            sent <= ticks,
            channel_contents(*old(c)).len() <= channel_buffer(*old(c)) + 1 ==> channel_contents(
                *c,
            ).len() <= channel_buffer(*old(c)) + 1,
            channel_buffer(*c) == channel_buffer(*old(c)),
            channel_contents(*c) == channel_contents(*old(c)) + Seq::new(
                sent as nat,
                |i: int| spec_timer_command(),
            ),
        decreases ticks - sent,
    {
        match enqueue_tick(c) {
            Ok(()) => {
                proof {
                    assert(channel_contents(*c) =~= channel_contents(*old(c)) + Seq::new(
                        (sent + 1) as nat,
                        |i: int| spec_timer_command(),
                    ));
                }
                sent += 1;
            },
            Err(_) => {
                return sent;
            },
        }
    }
    sent
}

} // verus!
