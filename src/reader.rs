use tokio::sync::mpsc;

use vstd::prelude::*;
use vstd::string::StringExecFns;

use crate::block::FilteredBlock;
use crate::block_cache::{BlockCache, CacheView, InsertError, DEFAULT_CAPACITY};
use crate::block_stream::{BlocksFromHeight, StreamView, max_u64};
use crate::trace::{
    CursorEvent,
    is_forward,
    is_advance,
    next_forward,
    first_forward,
    no_advance_between,
    forward_after,
    forwards_in_sequence,
    forwards_increasing,
    forwards_within,
    heights_within,
};

verus! {

/// Declares tokio's bounded `mpsc::Sender`, the executor channel the reader holds; its
/// contents stay opaque.
#[verifier::external_type_specification]
#[verifier::external_body]
#[verifier::reject_recursive_types(T)]
pub struct ExSender<T>(mpsc::Sender<T>);

/// What a non-blocking send to the executor channel reported.
pub enum TrySendOutcome {
    /// The block was queued.
    Sent,
    /// The channel had no free slot; the block is handed back.
    Full(FilteredBlock),
    /// The executor dropped its end; the block is handed back.
    Closed(FilteredBlock),
}

/// Relies on `tokio::sync::mpsc::Sender::try_send`: it queues the block or hands the same
/// block back, marked full or closed.
#[verifier::external_body]
fn try_send(channel: &mpsc::Sender<FilteredBlock>, block: FilteredBlock) -> (r: TrySendOutcome)
    ensures
        r matches TrySendOutcome::Full(b) ==> b == block,
        r matches TrySendOutcome::Closed(b) ==> b == block,
{
    match channel.try_send(block) {
        Ok(()) => TrySendOutcome::Sent,
        Err(mpsc::error::TrySendError::Full(b)) => TrySendOutcome::Full(b),
        Err(mpsc::error::TrySendError::Closed(b)) => TrySendOutcome::Closed(b),
    }
}

/// A fetch of a single block that the client could not recover from.
#[derive(Debug)]
pub struct FetchError {
    pub message: String,
}

/// A failed poll of the sequencer network's latest height.
#[derive(Debug)]
pub struct TransportError {
    pub message: String,
}

/// Why the reader stopped with a failure.
#[derive(Debug)]
pub enum ReaderError {
    /// The sequencer network runs another chain than the rollup expects.
    ChainIdMismatch { expected: String, actual: String },
    /// The stream of blocks met a fetch it could not recover from.
    FetchFailed { message: String },
    /// The executor's channel was closed.
    ExecutorClosed,
}

pub open spec fn chain_id_mismatch_message(expected: Seq<char>, actual: Seq<char>) -> Seq<char> {
    "expected chain id `"@ + expected + "` does not match actual: `"@ + actual + "`"@
}

impl ReaderError {
    pub open spec fn spec_message(&self) -> Seq<char> {
        match self {
            ReaderError::ChainIdMismatch { expected, actual } => chain_id_mismatch_message(
                expected@,
                actual@,
            ),
            ReaderError::FetchFailed { message } => "the stream of new blocks returned a catastrophic error: "@
                + message@,
            ReaderError::ExecutorClosed => "could not send block to executor because its channel was closed"@,
        }
    }

    /// A human-readable account of the failure.
    pub fn message(&self) -> (r: String)
        ensures
            r@ == self.spec_message(),
    {
        match self {
            ReaderError::ChainIdMismatch { expected, actual } => {
                let mut m = String::from_str("expected chain id `");
                m.append(expected.as_str());
                m.append("` does not match actual: `");
                m.append(actual.as_str());
                m.append("`");
                m
            },
            ReaderError::FetchFailed { message } => {
                let mut m = String::from_str("the stream of new blocks returned a catastrophic error: ");
                m.append(message.as_str());
                m
            },
            ReaderError::ExecutorClosed => String::from_str(
                "could not send block to executor because its channel was closed",
            ),
        }
    }
}

/// Turns the outcome of a run into the task's result: an orderly stop is a success, a
/// failure is passed on.
pub fn report_exit(reason: Result<&str, ReaderError>) -> (r: Result<(), ReaderError>)
    ensures
        r is Ok <==> reason is Ok,
        r is Err ==> r->Err_0 == reason->Err_0,
{
    match reason {
        Ok(_) => Ok(()),
        Err(e) => Err(e),
    }
}


/// The abstract state of a [`RunningReader`].
pub struct ReaderView {
    pub cache: CacheView,
    pub stream: StreamView,
    pub stop_height: Option<u64>,
    /// Whether a pending send to the executor is active.
    pub pending_send: bool,
    /// The next expected height the reader was created with.
    pub first_height: u64,
    /// Every block forwarded to the executor and every advance of the cursor, in order.
    pub trace: Seq<CursorEvent>,
    /// Every height a fetch was issued for, in order.
    pub requested: Seq<u64>,
}

impl ReaderView {
    /// The next height to forward.
    pub open spec fn cursor(self) -> u64 {
        self.cache.next_height
    }

    /// The stop height is set, the cursor is past it and no block is still on its way
    /// to the executor.
    pub open spec fn stop_reached(self) -> bool {
        &&& self.stop_height matches Some(s) && self.cursor() > s
        &&& !self.pending_send
    }

    /// How the cursor stands to what was forwarded and advanced so far.
    pub open spec fn cursor_follows_trace(self) -> bool {
        let t = self.trace;
        &&& forall|i: int| #[trigger] is_forward(t, i) ==> t[i].height() < self.cursor()
        &&& forall|k: int|
            #[trigger] is_advance(t, k) && !forward_after(t, k) ==> t[k].height() <= self.cursor()
        &&& t.len() > 0 && t.last() is Forwarded ==> self.cursor() == t.last().height() + 1
        &&& t.len() == 0 ==> self.cursor() == self.first_height
    }

    pub open spec fn wf(self) -> bool {
        &&& self.cache.wf()
        &&& self.stream.wf()
        &&& self.stream.stop_height == self.stop_height
        &&& self.first_height <= self.cursor()
        &&& self.first_height <= self.stream.next_height
        &&& self.cursor_follows_trace()
        &&& forwards_in_sequence(self.trace, self.first_height)
        &&& forwards_increasing(self.trace)
        &&& forwards_within(self.trace, self.first_height, self.stop_height)
        &&& heights_within(self.requested, self.first_height, self.stop_height)
    }
}

/// The reader's decisions: which height to fetch, what to cache, which block to forward
/// to the executor and when, and when to stop.
///
/// Whoever drives it awaits the sources (shutdown, the pending send, cursor advances from
/// the rollup state, fetched blocks, latest heights), picks the first ready one in that
/// order (forwarding the next cached block comes fourth), and hands each outcome here.
pub struct RunningReader {
    soft_blocks: mpsc::Sender<FilteredBlock>,
    block_cache: BlockCache,
    blocks_from_heights: BlocksFromHeight,
    stop_height: Option<u64>,
    pending_send: bool,
    first_height: u64,
    trace: Ghost<Seq<CursorEvent>>,
    requested: Ghost<Seq<u64>>,
}

impl RunningReader {
    pub closed spec fn view(&self) -> ReaderView {
        ReaderView {
            cache: self.block_cache@,
            stream: self.blocks_from_heights@,
            stop_height: self.stop_height,
            pending_send: self.pending_send,
            first_height: self.first_height,
            trace: self.trace@,
            requested: self.requested@,
        }
    }

    pub closed spec fn spec_rollup_id(&self) -> Seq<u8> {
        self.blocks_from_heights.spec_rollup_id()
    }

    pub open spec fn wf(&self) -> bool {
        self@.wf()
    }

    /// A reader that forwards from `next_expected_height` on, with an empty cache, no
    /// observed height yet, and nothing forwarded or fetched.
    pub fn new(
        soft_blocks: mpsc::Sender<FilteredBlock>,
        rollup_id: Vec<u8>,
        next_expected_height: u64,
        stop_height: Option<u64>,
    ) -> (r: Self)
        ensures
            r.wf(),
            r@ == (ReaderView {
                cache: CacheView {
                    blocks: Map::empty(),
                    next_height: next_expected_height,
                    capacity: DEFAULT_CAPACITY,
                },
                stream: StreamView {
                    next_height: next_expected_height,
                    latest_observed: None,
                    stop_height,
                    in_flight: None,
                },
                stop_height,
                pending_send: false,
                first_height: next_expected_height,
                trace: Seq::empty(),
                requested: Seq::empty(),
            }),
            r.spec_rollup_id() == rollup_id@,
    {
        let block_cache = BlockCache::with_next_height(next_expected_height);
        let blocks_from_heights = BlocksFromHeight::new(rollup_id, next_expected_height, stop_height);
        RunningReader {
            soft_blocks,
            block_cache,
            blocks_from_heights,
            stop_height,
            pending_send: false,
            first_height: next_expected_height,
            trace: Ghost(Seq::empty()),
            requested: Ghost(Seq::empty()),
        }
    }

    /// The channel to the executor, for a pending send to wait on.
    pub fn soft_blocks(&self) -> &mpsc::Sender<FilteredBlock> {
        &self.soft_blocks
    }

    /// The rollup whose blocks are fetched.
    pub fn rollup_id(&self) -> (r: &Vec<u8>)
        ensures
            r@ == self.spec_rollup_id(),
    {
        self.blocks_from_heights.rollup_id()
    }

    /// The next height to forward to the executor.
    pub fn next_height_to_pop(&self) -> (r: u64)
        ensures
            r == self@.cursor(),
    {
        self.block_cache.next_height_to_pop()
    }

    /// Whether a pending send to the executor is active.
    pub fn has_pending_send(&self) -> (r: bool)
        ensures
            r == self@.pending_send,
    {
        self.pending_send
    }

    /// Whether a block can be popped for the executor now: no send is pending, the stop
    /// height is not reached, and the cache holds the block at the cursor.
    pub fn has_block_ready(&self) -> (r: bool)
        requires
            self.wf(),
        ensures
            r == (!self@.pending_send && !self@.stop_reached() && self@.cache.can_pop()),
    {
        !self.pending_send && !self.has_reached_stop_height() && self.block_cache.next_height_to_pop()
            < u64::MAX && self.block_cache.contains(self.block_cache.next_height_to_pop())
    }

    /// The height of the fetch under way, if any.
    pub fn fetch_in_flight(&self) -> (r: Option<u64>)
        ensures
            r == self@.stream.in_flight,
    {
        self.blocks_from_heights.in_flight()
    }

    /// The stop height is reached when the next height to forward lies beyond it and no
    /// block is still on its way to the executor.
    pub fn has_reached_stop_height(&self) -> (r: bool)
        ensures
            r == self@.stop_reached(),
    {
        match self.stop_height {
            Some(s) => self.block_cache.next_height_to_pop() > s && !self.pending_send,
            None => false,
        }
    }

    /// Raises the stream's observed ceiling on a successful poll; a failed poll changes
    /// nothing and is waited out until the next tick.
    pub fn handle_latest_height(&mut self, res: Result<u64, TransportError>)
        requires
            old(self).wf(),
        ensures
            final(self).wf(),
            final(self).spec_rollup_id() == old(self).spec_rollup_id(),
            final(self)@ == (match res {
                Ok(h) => ReaderView {
                    stream: StreamView {
                        latest_observed: Some(
                            match old(self)@.stream.latest_observed {
                                Some(l) => max_u64(l, h),
                                None => h,
                            },
                        ),
                        ..old(self)@.stream
                    },
                    ..old(self)@
                },
                Err(_) => old(self)@,
            }),
    {
        if let Ok(height) = res {
            self.blocks_from_heights.set_latest_observed_height_if_greater(height);
        }
    }

    /// Issues the fetch of the stream's next height when none is under way and that
    /// height lies within the observed ceiling and the stop height; yields the height to
    /// fetch, or nothing.
    pub fn next_fetch_height(&mut self) -> (r: Option<u64>)
        requires
            old(self).wf(),
        ensures
            final(self).wf(),
            final(self).spec_rollup_id() == old(self).spec_rollup_id(),
            r is Some <==> old(self)@.stream.can_fetch(),
            r is Some ==> r->Some_0 == old(self)@.stream.next_height && final(self)@ == (
            ReaderView {
                stream: StreamView { in_flight: r, ..old(self)@.stream },
                requested: old(self)@.requested.push(r->Some_0),
                ..old(self)@
            }),
            r is None ==> final(self)@ == old(self)@,
    {
        let r = self.blocks_from_heights.start_fetch();
        if let Some(h) = r {
            proof {
                let ghost old_req = self.requested@;
                self.requested@ = self.requested@.push(h);
                assert forall|i: int| 0 <= i < self.requested@.len() implies self.first_height
                    <= #[trigger] self.requested@[i] && (self.stop_height matches Some(s)
                    ==> self.requested@[i] <= s) by {
                    if i < old_req.len() {
                        assert(self.requested@[i] == old_req[i]);
                    }
                }
            }
        }
        r
    }

    /// Takes the result of the fetch under way: a block goes into the cache, and a block
    /// that the cache refuses is dropped, with the refusal handed back; a fetch that
    /// could not recover ends the reader.
    pub fn handle_fetched_block(&mut self, res: Result<FilteredBlock, FetchError>) -> (r: Result<
        Option<InsertError>,
        ReaderError,
    >)
        requires
            old(self).wf(),
            old(self)@.stream.in_flight is Some,
        ensures
            final(self).wf(),
            final(self).spec_rollup_id() == old(self).spec_rollup_id(),
            match res {
                Ok(block) => {
                    &&& r is Ok
                    &&& r->Ok_0 == old(self)@.cache.insert_error(block)
                    &&& final(self)@ == (ReaderView {
                        cache: old(self)@.cache.insert(block),
                        stream: StreamView {
                            next_height: max_u64(
                                old(self)@.stream.next_height,
                                (old(self)@.stream.in_flight->Some_0 + 1) as u64,
                            ),
                            in_flight: None,
                            ..old(self)@.stream
                        },
                        ..old(self)@
                    })
                },
                Err(e) => r == Err::<Option<InsertError>, ReaderError>(
                    ReaderError::FetchFailed { message: e.message },
                ) && final(self)@ == old(self)@,
            },
    {
        match res {
            Ok(block) => {
                self.blocks_from_heights.complete_fetch();
                match self.block_cache.insert(block) {
                    Ok(()) => Ok(None),
                    Err(e) => Ok(Some(e)),
                }
            },
            Err(e) => Err(ReaderError::FetchFailed { message: e.message }),
        }
    }

    /// Skips the heights below `next_height`, which the executor already has: the stream
    /// fetches none of them from now on and the cache drops them and moves its cursor up.
    ///
    /// A fetch under way still completes; the cache refuses its block if it is too old.
    pub fn update_next_expected_height(&mut self, next_height: u64)
        requires
            old(self).wf(),
        ensures
            final(self).wf(),
            final(self).spec_rollup_id() == old(self).spec_rollup_id(),
            final(self)@ == (ReaderView {
                cache: old(self)@.cache.drop_obsolete(next_height),
                stream: StreamView {
                    next_height: max_u64(old(self)@.stream.next_height, next_height),
                    ..old(self)@.stream
                },
                trace: old(self)@.trace.push(CursorEvent::Advanced(next_height)),
                ..old(self)@
            }),
    {
        self.blocks_from_heights.set_next_expected_height_if_greater(next_height);
        self.block_cache.drop_obsolete(next_height);
        proof {
            let ghost t = self.trace@;
            let ghost t2 = t.push(CursorEvent::Advanced(next_height));
            let ghost first = self.first_height;
            assert forall|i: int, j: int| #[trigger] next_forward(t2, i, j) implies next_forward(
                t,
                i,
                j,
            ) && t2[i] == t[i] && t2[j] == t[j] && (no_advance_between(t2, i, j)
                ==> no_advance_between(t, i, j)) by {
                assert(j < t.len());
                assert forall|k: int| i < k < j implies !is_forward(t, k) by {
                    assert(!is_forward(t2, k));
                }
                if no_advance_between(t2, i, j) {
                    assert forall|k: int| i < k < j implies !is_advance(t, k) by {
                        assert(!is_advance(t2, k));
                    }
                }
            }
            assert forall|i: int, j: int, k: int|
                #[trigger] next_forward(t2, i, j) && i < k < j && #[trigger] is_advance(t2, k)
                implies t2[j].height() >= t2[k].height() by {
                assert(next_forward(t, i, j));
                assert(is_advance(t, k));
            }
            assert forall|j: int| #[trigger] first_forward(t2, j) implies first_forward(t, j)
                && t2[j] == t[j] && (no_advance_between(t2, -1, j) ==> no_advance_between(
                t,
                -1,
                j,
            )) by {
                assert(j < t.len());
                assert forall|k: int| 0 <= k < j implies !is_forward(t, k) by {
                    assert(!is_forward(t2, k));
                }
                if no_advance_between(t2, -1, j) {
                    assert forall|k: int| -1 < k < j implies !is_advance(t, k) by {
                        assert(!is_advance(t2, k));
                    }
                }
            }
            assert forall|j: int, k: int|
                #[trigger] first_forward(t2, j) && 0 <= k < j && #[trigger] is_advance(t2, k)
                implies t2[j].height() >= t2[k].height() by {
                assert(first_forward(t, j));
                assert(is_advance(t, k));
            }
            assert forall|k: int| #[trigger]
                is_advance(t2, k) && !forward_after(t2, k) implies t2[k].height()
                <= self.block_cache@.next_height by {
                if k < t.len() {
                    assert(is_advance(t, k));
                    if forward_after(t, k) {
                        let m = choose|m: int| k < m && is_forward(t, m);
                        assert(is_forward(t2, m));
                    }
                    assert(t[k].height() <= old(self)@.cursor());
                    assert(t2[k] == t[k]);
                }
            }
            assert forall|i: int, j: int|
                #[trigger] is_forward(t2, i) && #[trigger] is_forward(t2, j) && i < j implies t2[i].height()
                < t2[j].height() by {
                assert(is_forward(t, i) && is_forward(t, j));
            }
            assert forall|i: int| #[trigger] is_forward(t2, i) implies first <= t2[i].height() && (
            self.stop_height matches Some(s) ==> t2[i].height() <= s) && t2[i].height()
                < self.block_cache@.next_height by {
                assert(is_forward(t, i));
            }
            self.trace@ = t2;
        }
    }

    /// Takes the block at the cursor out of the cache for the executor, advancing the
    /// cursor; yields nothing while a pending send is active, once the stop height is
    /// reached, or when the cache holds no block at the cursor.
    pub fn pop_next_block(&mut self) -> (r: Option<FilteredBlock>)
        requires
            old(self).wf(),
        ensures
            final(self).wf(),
            final(self).spec_rollup_id() == old(self).spec_rollup_id(),
            r is Some <==> !old(self)@.pending_send && !old(self)@.stop_reached()
                && old(self)@.cache.can_pop(),
            r is Some ==> {
                &&& r->Some_0 == old(self)@.cache.blocks[old(self)@.cursor()]
                &&& r->Some_0.height == old(self)@.cursor()
                &&& final(self)@ == (ReaderView {
                    cache: old(self)@.cache.pop(),
                    trace: old(self)@.trace.push(CursorEvent::Forwarded(old(self)@.cursor())),
                    ..old(self)@
                })
            },
            r is None ==> final(self)@ == old(self)@,
    {
        if self.pending_send || self.has_reached_stop_height() {
            return None;
        }
        let ghost c = self.block_cache@.next_height;
        let popped = self.block_cache.next_block();
        if let Some(block) = &popped {
            proof {
                let ghost t = self.trace@;
                let ghost t2 = t.push(CursorEvent::Forwarded(c));
                let ghost n = t.len() as int;
                let ghost first = self.first_height;
                assert(old(self)@.cache.blocks.contains_key(c));
                assert(is_forward(t2, n));
                // Pairs that end before the new entry are those of the old trace.
                assert forall|i: int, j: int| #[trigger]
                    next_forward(t2, i, j) && j < n implies next_forward(t, i, j) && t2[i] == t[i]
                    && t2[j] == t[j] && (no_advance_between(t2, i, j) ==> no_advance_between(
                    t,
                    i,
                    j,
                )) by {
                    assert forall|k: int| i < k < j implies !is_forward(t, k) by {
                        assert(!is_forward(t2, k));
                    }
                    if no_advance_between(t2, i, j) {
                        assert forall|k: int| i < k < j implies !is_advance(t, k) by {
                            assert(!is_advance(t2, k));
                        }
                    }
                }
                // A pair that ends at the new entry starts at the last forward of the old
                // trace: every advance between them came after every forward.
                assert forall|i: int, k: int|
                    #[trigger] next_forward(t2, i, n) && i < k < n && #[trigger] is_advance(t2, k)
                    implies t2[k].height() <= c by {
                    assert(is_advance(t, k));
                    if forward_after(t, k) {
                        let m = choose|m: int| k < m && is_forward(t, m);
                        assert(!is_forward(t2, m));
                    }
                }
                assert forall|i: int| #[trigger]
                    next_forward(t2, i, n) && no_advance_between(t2, i, n) implies c == t2[i].height()
                    + 1 by {
                    if i < n - 1 {
                        assert(!is_forward(t2, n - 1));
                        assert(!is_advance(t2, n - 1));
                    }
                    assert(t.last() == t[i]);
                }
                assert forall|k: int|
                    #[trigger] first_forward(t2, n) && 0 <= k < n && #[trigger] is_advance(t2, k)
                    implies t2[k].height() <= c by {
                    assert(is_advance(t, k));
                    if forward_after(t, k) {
                        let m = choose|m: int| k < m && is_forward(t, m);
                        assert(!is_forward(t2, m));
                    }
                }
                assert(first_forward(t2, n) && no_advance_between(t2, -1, n) ==> c == first) by {
                    if first_forward(t2, n) && no_advance_between(t2, -1, n) && n > 0 {
                        assert(!is_forward(t2, 0));
                        assert(!is_advance(t2, 0));
                    }
                }
                assert forall|j: int| #[trigger] first_forward(t2, j) && j < n implies first_forward(
                    t,
                    j,
                ) && t2[j] == t[j] && (no_advance_between(t2, -1, j) ==> no_advance_between(
                    t,
                    -1,
                    j,
                )) by {
                    assert forall|k: int| 0 <= k < j implies !is_forward(t, k) by {
                        assert(!is_forward(t2, k));
                    }
                    if no_advance_between(t2, -1, j) {
                        assert forall|k: int| -1 < k < j implies !is_advance(t, k) by {
                            assert(!is_advance(t2, k));
                        }
                    }
                }
                assert forall|i: int, j: int, k: int|
                    #[trigger] next_forward(t2, i, j) && i < k < j && #[trigger] is_advance(t2, k)
                    implies t2[j].height() >= t2[k].height() by {
                    if j < n {
                        assert(next_forward(t, i, j));
                        assert(is_advance(t, k));
                    }
                }
                assert forall|j: int, k: int|
                    #[trigger] first_forward(t2, j) && 0 <= k < j && #[trigger] is_advance(t2, k)
                    implies t2[j].height() >= t2[k].height() by {
                    if j < n {
                        assert(first_forward(t, j));
                        assert(is_advance(t, k));
                    }
                }
                assert forall|i: int, j: int|
                    #[trigger] is_forward(t2, i) && #[trigger] is_forward(t2, j) && i < j implies t2[i].height()
                    < t2[j].height() by {
                    assert(is_forward(t, i));
                    if j < n {
                        assert(is_forward(t, j));
                    }
                }
                assert forall|i: int| #[trigger] is_forward(t2, i) implies first <= t2[i].height() && (
                self.stop_height matches Some(s) ==> t2[i].height() <= s) && t2[i].height()
                    < self.block_cache@.next_height by {
                    if i < n {
                        assert(is_forward(t, i));
                    }
                }
                assert forall|k: int| #[trigger]
                    is_advance(t2, k) && !forward_after(t2, k) implies t2[k].height()
                    <= self.block_cache@.next_height by {
                    assert(is_forward(t2, n));
                }
                self.trace@ = t2;
            }
        }
        popped
    }

    /// Takes what a non-blocking send of the popped block reported: a queued block needs
    /// nothing more; a full channel makes the block the single pending send, which stops
    /// further pops until it resolves, and the block is handed back to be sent by waiting;
    /// a closed channel ends the reader.
    pub fn handle_try_send(&mut self, outcome: TrySendOutcome) -> (r: Result<
        Option<FilteredBlock>,
        ReaderError,
    >)
        requires
            old(self).wf(),
            !old(self)@.pending_send,
        ensures
            final(self).wf(),
            final(self).spec_rollup_id() == old(self).spec_rollup_id(),
            match outcome {
                TrySendOutcome::Sent => r == Ok::<Option<FilteredBlock>, ReaderError>(None)
                    && final(self)@ == old(self)@,
                TrySendOutcome::Full(b) => r == Ok::<Option<FilteredBlock>, ReaderError>(Some(b))
                    && final(self)@ == (ReaderView { pending_send: true, ..old(self)@ }),
                TrySendOutcome::Closed(_) => r == Err::<Option<FilteredBlock>, ReaderError>(
                    ReaderError::ExecutorClosed,
                ) && final(self)@ == old(self)@,
            },
    {
        match outcome {
            TrySendOutcome::Sent => Ok(None),
            TrySendOutcome::Full(block) => {
                self.pending_send = true;
                Ok(Some(block))
            },
            TrySendOutcome::Closed(_) => Err(ReaderError::ExecutorClosed),
        }
    }

    /// Sends `block` to the executor without waiting. When the channel is full the
    /// block is handed back as the single pending send, to be sent by waiting; when it
    /// is closed the reader fails.
    pub fn send_to_executor(&mut self, block: FilteredBlock) -> (r: Result<
        Option<FilteredBlock>,
        ReaderError,
    >)
        requires
            old(self).wf(),
            !old(self)@.pending_send,
        ensures
            final(self).wf(),
            final(self).spec_rollup_id() == old(self).spec_rollup_id(),
            r matches Ok(None) ==> final(self)@ == old(self)@,
            r matches Ok(Some(b)) ==> b == block && final(self)@ == (ReaderView {
                pending_send: true,
                ..old(self)@
            }),
            r is Err ==> r->Err_0 == ReaderError::ExecutorClosed && final(self)@ == old(self)@,
    {
        let outcome = try_send(&self.soft_blocks, block);
        self.handle_try_send(outcome)
    }

    /// Takes the completion of the pending send: the reader resumes forwarding when the
    /// block was sent, and fails when the executor's channel was closed.
    pub fn finish_pending_send(&mut self, sent: bool) -> (r: Result<(), ReaderError>)
        requires
            old(self).wf(),
            old(self)@.pending_send,
        ensures
            final(self).wf(),
            final(self).spec_rollup_id() == old(self).spec_rollup_id(),
            final(self)@ == (ReaderView { pending_send: false, ..old(self)@ }),
            r is Ok <==> sent,
            r is Err ==> r->Err_0 == ReaderError::ExecutorClosed,
    {
        self.pending_send = false;
        if sent {
            Ok(())
        } else {
            Err(ReaderError::ExecutorClosed)
        }
    }
}


/// The rollup's view of where it stands, read once when the reader starts.
#[derive(Debug)]
pub struct RollupState {
    /// The chain id of the sequencer network the rollup follows.
    pub sequencer_chain_id: String,
    pub rollup_id: Vec<u8>,
    /// The lowest sequencer height the executor still needs.
    pub next_expected_soft_height: u64,
    /// The last sequencer height to forward, if any.
    pub stop_height: Option<u64>,
}

/// A reader that has not yet checked the sequencer network it talks to.
pub struct Reader {
    rollup_state: RollupState,
    soft_blocks: mpsc::Sender<FilteredBlock>,
}

impl Reader {
    pub closed spec fn spec_rollup_state(&self) -> RollupState {
        self.rollup_state
    }

    pub fn new(rollup_state: RollupState, soft_blocks: mpsc::Sender<FilteredBlock>) -> (r: Self)
        ensures
            r.spec_rollup_state() == rollup_state,
    {
        Reader { rollup_state, soft_blocks }
    }

    pub fn rollup_state(&self) -> (r: &RollupState)
        ensures
            *r == self.spec_rollup_state(),
    {
        &self.rollup_state
    }

    /// Checks that the sequencer network runs the chain the rollup expects, given the
    /// chain id from its genesis; a mismatch names both ids.
    pub fn initialize(&self, actual_sequencer_chain_id: &String) -> (r: Result<(), ReaderError>)
        ensures
            r is Ok <==> self.spec_rollup_state().sequencer_chain_id@
                == actual_sequencer_chain_id@,
            r is Err ==> (r->Err_0 matches ReaderError::ChainIdMismatch { expected, actual }
                && expected@ == self.spec_rollup_state().sequencer_chain_id@ && actual@
                == actual_sequencer_chain_id@),
    {
        let expected = &self.rollup_state.sequencer_chain_id;
        if *expected == *actual_sequencer_chain_id {
            Ok(())
        } else {
            Err(
                ReaderError::ChainIdMismatch {
                    expected: expected.clone(),
                    actual: actual_sequencer_chain_id.clone(),
                },
            )
        }
    }

    /// Enters the run loop's state: the cache and the stream both start at the rollup's
    /// next expected height, with nothing cached, observed, fetched or forwarded.
    pub fn into_running(self) -> (r: RunningReader)
        ensures
            r.wf(),
            r.spec_rollup_id() == self.spec_rollup_state().rollup_id@,
            r@ == (ReaderView {
                cache: CacheView {
                    blocks: Map::empty(),
                    next_height: self.spec_rollup_state().next_expected_soft_height,
                    capacity: DEFAULT_CAPACITY,
                },
                stream: StreamView {
                    next_height: self.spec_rollup_state().next_expected_soft_height,
                    latest_observed: None,
                    stop_height: self.spec_rollup_state().stop_height,
                    in_flight: None,
                },
                stop_height: self.spec_rollup_state().stop_height,
                pending_send: false,
                first_height: self.spec_rollup_state().next_expected_soft_height,
                trace: Seq::empty(),
                requested: Seq::empty(),
            }),
    {
        let Reader { rollup_state, soft_blocks } = self;
        let RollupState { rollup_id, next_expected_soft_height, stop_height, .. } = rollup_state;
        RunningReader::new(soft_blocks, rollup_id, next_expected_soft_height, stop_height)
    }
}

/// Two blocks forwarded one after the other are at consecutive heights, unless the
/// cursor was advanced between them; the later one is then at or above every height the
/// cursor was advanced to in between.
pub proof fn lemma_forwarded_heights_consecutive(r: &RunningReader)
    requires
        r.wf(),
    ensures
        forall|i: int, j: int|
            #[trigger] next_forward(r@.trace, i, j) ==> r@.trace[j].height() > r@.trace[i].height()
                && (no_advance_between(r@.trace, i, j) ==> r@.trace[j].height()
                == r@.trace[i].height() + 1),
        forall|i: int, j: int, k: int|
            #[trigger] next_forward(r@.trace, i, j) && i < k < j && #[trigger] is_advance(
                r@.trace,
                k,
            ) ==> r@.trace[j].height() >= r@.trace[k].height(),
{
}

/// No height is forwarded to the executor twice.
pub proof fn lemma_no_height_forwarded_twice(r: &RunningReader)
    requires
        r.wf(),
    ensures
        forall|i: int, j: int|
            #[trigger] is_forward(r@.trace, i) && #[trigger] is_forward(r@.trace, j) && i != j
                ==> r@.trace[i].height() != r@.trace[j].height(),
{
    assert forall|i: int, j: int|
        #[trigger] is_forward(r@.trace, i) && #[trigger] is_forward(r@.trace, j) && i
            != j implies r@.trace[i].height() != r@.trace[j].height() by {
        if j < i {
            assert(r@.trace[j].height() < r@.trace[i].height());
        }
    }
}

/// No height below the next expected height the reader started from is ever fetched or
/// forwarded.
pub proof fn lemma_nothing_below_first_height(r: &RunningReader)
    requires
        r.wf(),
    ensures
        forall|i: int| #[trigger] is_forward(r@.trace, i) ==> r@.trace[i].height() >= r@.first_height,
        forall|i: int| 0 <= i < r@.requested.len() ==> #[trigger] r@.requested[i] >= r@.first_height,
{
}

/// With a stop height set, no height above it is ever fetched or forwarded, and once the
/// block at the stop height was forwarded and no send is pending, the reader stops.
pub proof fn lemma_stop_height_respected(r: &RunningReader, stop: u64)
    requires
        r.wf(),
        r@.stop_height == Some(stop),
    ensures
        forall|i: int| #[trigger] is_forward(r@.trace, i) ==> r@.trace[i].height() <= stop,
        forall|i: int| 0 <= i < r@.requested.len() ==> #[trigger] r@.requested[i] <= stop,
        (exists|i: int| #[trigger] is_forward(r@.trace, i) && r@.trace[i].height() == stop)
            && !r@.pending_send ==> r@.stop_reached(),
{
    if exists|i: int| #[trigger] is_forward(r@.trace, i) && r@.trace[i].height() == stop {
        let i = choose|i: int| #[trigger] is_forward(r@.trace, i) && r@.trace[i].height() == stop;
        assert(r@.trace[i].height() < r@.cursor());
    }
}

/// A reader forwards from the next expected height it was created with: its first
/// forwarded block is at that height unless the cursor was advanced before it, and then
/// at or above every height advanced to.
pub proof fn lemma_first_forward_at_first_height(r: &RunningReader)
    requires
        r.wf(),
    ensures
        forall|j: int|
            #[trigger] first_forward(r@.trace, j) && no_advance_between(r@.trace, -1, j)
                ==> r@.trace[j].height() == r@.first_height,
        forall|j: int, k: int|
            #[trigger] first_forward(r@.trace, j) && 0 <= k < j && #[trigger] is_advance(r@.trace, k)
                ==> r@.trace[j].height() >= r@.trace[k].height(),
{
}

} // verus!
