use vstd::prelude::*;

verus! {

/// The abstract state of a [`BlocksFromHeight`] stream.
pub struct StreamView {
    /// The next height to fetch.
    pub next_height: u64,
    /// The highest height the sequencer network was seen at, once it was seen.
    pub latest_observed: Option<u64>,
    /// The last height that may ever be fetched, if any.
    pub stop_height: Option<u64>,
    /// The height of the single fetch that is under way, if any.
    pub in_flight: Option<u64>,
}

impl StreamView {
    /// A fetch under way is for a height at or below the next one, and not the largest
    /// height.
    pub open spec fn wf(self) -> bool {
        self.in_flight matches Some(f) ==> f <= self.next_height && f < u64::MAX
    }

    /// Whether the next height lies within the observed ceiling and the stop height.
    pub open spec fn in_range(self) -> bool {
        &&& self.latest_observed matches Some(l) && self.next_height <= l
        &&& self.stop_height matches Some(s) ==> self.next_height <= s
        &&& self.next_height < u64::MAX
    }

    /// Whether a new fetch is to be issued now: none is under way and the next height is
    /// in range.
    pub open spec fn can_fetch(self) -> bool {
        self.in_flight is None && self.in_range()
    }
}

/// The larger of `a` and `b`.
pub open spec fn max_u64(a: u64, b: u64) -> u64 {
    if a >= b {
        a
    } else {
        b
    }
}

/// The heights to fetch from the sequencer network, one at a time and in increasing
/// order, from the next expected height up to the latest observed height and never
/// beyond the stop height.
pub struct BlocksFromHeight {
    rollup_id: Vec<u8>,
    next_height: u64,
    latest_observed: Option<u64>,
    stop_height: Option<u64>,
    in_flight: Option<u64>,
}

impl BlocksFromHeight {
    pub closed spec fn view(&self) -> StreamView {
        StreamView {
            next_height: self.next_height,
            latest_observed: self.latest_observed,
            stop_height: self.stop_height,
            in_flight: self.in_flight,
        }
    }

    pub closed spec fn spec_rollup_id(&self) -> Seq<u8> {
        self.rollup_id@
    }

    /// A stream that starts at `next_height` and waits for a first observed height.
    pub fn new(rollup_id: Vec<u8>, next_height: u64, stop_height: Option<u64>) -> (r: Self)
        ensures
            r@.wf(),
            r@ == (StreamView { next_height, latest_observed: None, stop_height, in_flight: None }),
            r.spec_rollup_id() == rollup_id@,
    {
        BlocksFromHeight { rollup_id, next_height, latest_observed: None, stop_height, in_flight: None }
    }

    /// The rollup whose blocks are fetched.
    pub fn rollup_id(&self) -> (r: &Vec<u8>)
        ensures
            r@ == self.spec_rollup_id(),
    {
        &self.rollup_id
    }

    /// The next height to fetch.
    pub fn next_height(&self) -> (r: u64)
        ensures
            r == self@.next_height,
    {
        self.next_height
    }

    /// The height of the fetch under way, if any.
    pub fn in_flight(&self) -> (r: Option<u64>)
        ensures
            r == self@.in_flight,
    {
        self.in_flight
    }

    /// Raises the observed ceiling to `height`; a lower height leaves it as it is.
    pub fn set_latest_observed_height_if_greater(&mut self, height: u64)
        requires
            old(self)@.wf(),
        ensures
            final(self)@.wf(),
            final(self)@ == (StreamView {
                latest_observed: Some(
                    match old(self)@.latest_observed {
                        Some(l) => max_u64(l, height),
                        None => height,
                    },
                ),
                ..old(self)@
            }),
            final(self).spec_rollup_id() == old(self).spec_rollup_id(),
    {
        let raise = match self.latest_observed {
            Some(l) => height > l,
            None => true,
        };
        if raise {
            self.latest_observed = Some(height);
        }
    }

    /// Raises the next height to fetch to `height`; a lower height leaves it as it is.
    ///
    /// A fetch already under way runs its course.
    pub fn set_next_expected_height_if_greater(&mut self, height: u64)
        requires
            old(self)@.wf(),
        ensures
            final(self)@.wf(),
            final(self)@ == (StreamView {
                next_height: max_u64(old(self)@.next_height, height),
                ..old(self)@
            }),
            final(self).spec_rollup_id() == old(self).spec_rollup_id(),
    {
        if height > self.next_height {
            self.next_height = height;
        }
    }

    /// Issues the fetch of the next height when none is under way and that height is in
    /// range, and yields the height to fetch; yields nothing otherwise.
    pub fn start_fetch(&mut self) -> (r: Option<u64>)
        requires
            old(self)@.wf(),
        ensures
            final(self)@.wf(),
            final(self).spec_rollup_id() == old(self).spec_rollup_id(),
            r is Some <==> old(self)@.can_fetch(),
            r is Some ==> r->Some_0 == old(self)@.next_height && final(self)@ == (StreamView {
                in_flight: Some(old(self)@.next_height),
                ..old(self)@
            }),
            r is None ==> final(self)@ == old(self)@,
    {
        if self.in_flight.is_some() || self.next_height == u64::MAX {
            return None;
        }
        let below_ceiling = match self.latest_observed {
            Some(l) => self.next_height <= l,
            None => false,
        };
        let below_stop = match self.stop_height {
            Some(s) => self.next_height <= s,
            None => true,
        };
        if !below_ceiling || !below_stop {
            return None;
        }
        self.in_flight = Some(self.next_height);
        Some(self.next_height)
    }

    /// Records that the fetch under way has yielded its block: the next height to fetch
    /// moves past the fetched one.
    pub fn complete_fetch(&mut self)
        requires
            old(self)@.wf(),
            old(self)@.in_flight is Some,
        ensures
            final(self)@.wf(),
            final(self).spec_rollup_id() == old(self).spec_rollup_id(),
            final(self)@ == (StreamView {
                next_height: max_u64(
                    old(self)@.next_height,
                    (old(self)@.in_flight->Some_0 + 1) as u64,
                ),
                in_flight: None,
                ..old(self)@
            }),
    {
        let fetched = match self.in_flight {
            Some(f) => f,
            None => 0,
        };
        if fetched + 1 > self.next_height {
            self.next_height = fetched + 1;
        }
        self.in_flight = None;
    }
}

} // verus!
