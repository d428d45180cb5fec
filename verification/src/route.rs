//! The duplex route's real-time core: the bounded handoff queue between the
//! capture and render callbacks, the work each callback does per invocation,
//! and the negotiation of both sides of a route.
//!
//! The queue favours latency over completeness: a capture block that finds
//! the queue full is dropped (drop-newest), and a render cycle that finds it
//! empty writes nothing.

use vstd::prelude::*;
use crate::audio_io::AudioError;
use crate::audio_io::StreamConfig;
use crate::audio_io::SupportedConfigRange;
use crate::audio_io::negotiated_rate;
use crate::processor::ProcessorChain;
use crate::processor::chain_applied;

verus! {

/// Upper bound on the handoff queue's capacity: far above any sensible
/// buffering depth, and small enough that the channel can always be built.
pub const MAX_QUEUE_CAPACITY: usize = 65536;

/// The blocks a queue holds, oldest first.
pub uninterp spec fn queue_blocks(q: HandoffQueue) -> Seq<Seq<i64>>;

/// The fixed capacity a queue was created with.
pub uninterp spec fn queue_capacity(q: HandoffQueue) -> nat;

/// A send is accepted exactly when the queue is not full.
pub open spec fn send_accepted(blocks: Seq<Seq<i64>>, capacity: nat) -> bool {
    blocks.len() < capacity
}

/// What the queue holds after a send: the block appended at the tail when
/// there was room, the queue unchanged (block dropped) when it was full.
pub open spec fn blocks_after_send(blocks: Seq<Seq<i64>>, capacity: nat, b: Seq<i64>) -> Seq<
    Seq<i64>,
> {
    if send_accepted(blocks, capacity) {
        blocks.push(b)
    } else {
        blocks
    }
}

/// Bounded FIFO handoff buffer moving audio blocks from the capture callback
/// to the render callback. Both operations are non-blocking; full and empty
/// are expected steady-state outcomes, not errors.
#[verifier::external_body]
pub struct HandoffQueue {
    sender: crossbeam_channel::Sender<Vec<i64>>,
    receiver: crossbeam_channel::Receiver<Vec<i64>>,
}

impl HandoffQueue {
    /// Relies on crossbeam_channel::bounded: a FIFO channel that holds at
    /// most `capacity` messages (it panics on a capacity of zero, and on one
    /// too large to represent, which the bound here rules out).
    #[verifier::external_body]
    pub fn new(capacity: usize) -> (q: HandoffQueue)
        requires
            1 <= capacity <= MAX_QUEUE_CAPACITY,
        ensures
            queue_capacity(q) == capacity,
            queue_blocks(q) == Seq::<Seq<i64>>::empty(),
    {
        let (sender, receiver) = crossbeam_channel::bounded(capacity);
        HandoffQueue { sender, receiver }
    }

    /// Relies on crossbeam_channel::Sender::try_send: appends at the tail
    /// and returns Ok exactly when the channel is not full, without
    /// blocking. The receiving half lives in this same value, so the
    /// channel can never be disconnected.
    #[verifier::external_body]
    pub fn try_send(&mut self, block: Vec<i64>) -> (sent: bool)
        ensures
            queue_capacity(*final(self)) == queue_capacity(*old(self)),
            sent == send_accepted(queue_blocks(*old(self)), queue_capacity(*old(self))),
            queue_blocks(*final(self)) == blocks_after_send(
                queue_blocks(*old(self)),
                queue_capacity(*old(self)),
                block@,
            ),
    {
        self.sender.try_send(block).is_ok()
    }

    /// Relies on crossbeam_channel::Receiver::try_recv: removes and returns
    /// the oldest message exactly when the channel is not empty, without
    /// blocking. The sending half lives in this same value, so the channel
    /// can never be disconnected.
    #[verifier::external_body]
    pub fn try_recv(&mut self) -> (r: Option<Vec<i64>>)
        ensures
            queue_capacity(*final(self)) == queue_capacity(*old(self)),
            match r {
                Some(b) => queue_blocks(*old(self)).len() > 0 && b@ == queue_blocks(*old(self))[0]
                    && queue_blocks(*final(self)) == queue_blocks(*old(self)).drop_first(),
                None => queue_blocks(*old(self)).len() == 0 && queue_blocks(*final(self))
                    == queue_blocks(*old(self)),
            },
    {
        self.receiver.try_recv().ok()
    }
}

/// A full queue drops the newest block: after a second send into a
/// capacity-one queue, the first block is still the one at the front
/// (retrievable by the next receive) and the second is gone.
pub proof fn lemma_full_queue_drops_newest(first: Seq<i64>, second: Seq<i64>)
    ensures
        ({
            let q1 = blocks_after_send(Seq::<Seq<i64>>::empty(), 1, first);
            let q2 = blocks_after_send(q1, 1, second);
            &&& send_accepted(Seq::<Seq<i64>>::empty(), 1)
            &&& !send_accepted(q1, 1)
            &&& q2 == q1
            &&& q2.len() == 1
            &&& q2[0] == first
        }),
{
}

/// Feeds two blocks into a fresh capacity-one queue before anything is
/// consumed, then drains it: the first block is what comes back, the second
/// was dropped on the floor, and nothing else is left.
pub fn queue_overrun_keeps_oldest(first: Vec<i64>, second: Vec<i64>) -> (r: (
    Option<Vec<i64>>,
    Option<Vec<i64>>,
))
    ensures
        ({
            let (oldest, rest) = r;
            &&& match oldest {
                Some(b) => b@ == first@,
                None => false,
            }
            &&& rest is None
        }),
{
    let mut queue = HandoffQueue::new(1);
    let accepted = queue.try_send(first);
    assert(accepted);
    let dropped = queue.try_send(second);
    assert(!dropped);
    let oldest = queue.try_recv();
    let rest = queue.try_recv();
    (oldest, rest)
}

/// A fresh copy of the hardware-delivered samples, ready to own.
fn copy_block(data: &Vec<i64>) -> (b: Vec<i64>)
    ensures
        b@ == data@,
{
    let n = data.len();
    let mut b: Vec<i64> = Vec::new();
    let mut i: usize = 0;
    while i < n
        invariant
            n == data@.len(),
            i <= n,
            b@ == data@.take(i as int),
        decreases n - i,
    {
        b.push(data[i]);
        proof {
            assert(data@.take(i as int).push(data@[i as int]) =~= data@.take(i + 1));
        }
        i += 1;
    }
    assert(data@.take(n as int) =~= data@);
    b
}

/// One capture-callback invocation: copy the hardware samples into a fresh
/// block, run the processor chain over it, and try to enqueue it. Exactly
/// one block per invocation; a full queue drops this newest block rather
/// than blocking the real-time thread.
pub fn capture_step(chain: &mut ProcessorChain, data: &Vec<i64>, queue: &mut HandoffQueue) -> (sent:
    bool)
    ensures
        *final(chain) == *old(chain),
        queue_capacity(*final(queue)) == queue_capacity(*old(queue)),
        sent == send_accepted(queue_blocks(*old(queue)), queue_capacity(*old(queue))),
        queue_blocks(*final(queue)) == blocks_after_send(
            queue_blocks(*old(queue)),
            queue_capacity(*old(queue)),
            chain_applied(old(chain).processors@, data@),
        ),
{
    let mut block = copy_block(data);
    chain.process(&mut block);
    queue.try_send(block)
}

/// What the hardware buffer holds after a block is rendered into it: the
/// block's samples up to the shorter of the two lengths, the buffer's prior
/// contents beyond that (deliberately not zeroed).
pub open spec fn render_overlay(dst: Seq<i64>, block: Seq<i64>) -> Seq<i64> {
    Seq::new(dst.len(), |i: int| if i < block.len() { block[i] } else { dst[i] })
}

/// One render-callback invocation: dequeue one block if any is ready and
/// copy it over the front of the hardware buffer. An empty queue (underrun)
/// leaves the buffer exactly as it was — no audio is written that cycle.
pub fn render_step(queue: &mut HandoffQueue, output: &mut Vec<i64>)
    ensures
        queue_capacity(*final(queue)) == queue_capacity(*old(queue)),
        queue_blocks(*old(queue)).len() == 0 ==> queue_blocks(*final(queue)) == queue_blocks(
            *old(queue),
        ) && final(output)@ == old(output)@,
        queue_blocks(*old(queue)).len() > 0 ==> queue_blocks(*final(queue)) == queue_blocks(
            *old(queue),
        ).drop_first() && final(output)@ == render_overlay(
            old(output)@,
            queue_blocks(*old(queue))[0],
        ),
{
    let ghost orig: Seq<i64> = output@;
    match queue.try_recv() {
        Some(block) => {
            let m = if block.len() < output.len() {
                block.len()
            } else {
                output.len()
            };
            let mut i: usize = 0;
            while i < m
                invariant
                    m <= block@.len(),
                    m <= output@.len(),
                    output@.len() == orig.len(),
                    i <= m,
                    forall|k: int| 0 <= k < i ==> output@[k] == block@[k],
                    forall|k: int| i <= k < orig.len() ==> output@[k] == orig[k],
                decreases m - i,
            {
                output.set(i, block[i]);
                i += 1;
            }
            assert(output@ =~= render_overlay(orig, block@));
        },
        None => {},
    }
}

/// What both sides of one route negotiate to, plus whether their rates
/// disagree. Diverging rates are passed through by design (the queue moves
/// blocks regardless), but the divergence is surfaced so the owner can warn.
#[derive(Clone, Copy, Debug, PartialEq, Eq, Structural)]
pub struct DuplexPlan {
    /// Negotiated configuration of the capture side.
    pub capture_config: StreamConfig,
    /// Negotiated configuration of the render side.
    pub render_config: StreamConfig,
    /// The two sides negotiated different sample rates.
    pub rate_mismatch: bool,
}

/// Negotiates the two sides of a duplex route independently at the same
/// requested rate. Fails with `NoSupportedConfig` exactly when either side
/// advertises no configuration range at all.
pub fn negotiate_duplex(
    capture_ranges: &Vec<SupportedConfigRange>,
    render_ranges: &Vec<SupportedConfigRange>,
    requested_rate: u32,
    buffer_size: u32,
) -> (r: Result<DuplexPlan, AudioError>)
    ensures
        match r {
            Ok(p) => capture_ranges@.len() > 0 && render_ranges@.len() > 0 && p.capture_config
                == (StreamConfig {
                sample_rate: negotiated_rate(capture_ranges@, requested_rate),
                buffer_size,
            }) && p.render_config == (StreamConfig {
                sample_rate: negotiated_rate(render_ranges@, requested_rate),
                buffer_size,
            }) && p.rate_mismatch == (p.capture_config.sample_rate
                != p.render_config.sample_rate),
            Err(e) => e == AudioError::NoSupportedConfig && (capture_ranges@.len() == 0
                || render_ranges@.len() == 0),
        },
{
    let capture_config = crate::audio_io::negotiate_config(
        capture_ranges,
        requested_rate,
        buffer_size,
    )?;
    let render_config = crate::audio_io::negotiate_config(
        render_ranges,
        requested_rate,
        buffer_size,
    )?;
    Ok(
        DuplexPlan {
            capture_config,
            render_config,
            rate_mismatch: capture_config.sample_rate != render_config.sample_rate,
        },
    )
}

} // verus!
