use vstd::prelude::*;
use crate::address::Address;

verus! {

/// How many samples the oracle keeps.
pub const OBSERVATION_NUM: usize = 100;

/// The least time between two samples.
pub const OBSERVATION_UPDATE_DURATION_DEFAULT: u64 = 15;

/// One sample of the oracle.
#[derive(Clone, Copy, Debug, PartialEq, Eq, Structural)]
pub struct Observation {
    /// When the sample was taken.
    pub block_timestamp: u64,
    /// Price of asset 0 summed over time, in 32.32 fixed point; the upper
    /// bits hold what runs over, and the sum wraps at 128 bits.
    pub cumulative_token_0_price_x32: u128,
    /// Price of asset 1 summed over time, likewise.
    pub cumulative_token_1_price_x32: u128,
}

/// The oracle of one pool: a ring of the last samples.
#[derive(Clone, Copy, Debug, PartialEq, Eq)]
pub struct ObservationState {
    /// Whether any sample has been written.
    pub initialized: bool,
    /// Where the latest sample stands.
    pub observation_index: u16,
    /// The pool that the oracle belongs to.
    pub pool_id: Address,
    /// The samples.
    pub observations: [Observation; 100],
    /// Room for fields to come.
    pub padding: [u64; 4],
}

/// What is fed to the oracle: the time and the two prices at that time.
#[derive(Clone, Copy, Debug, PartialEq, Eq, Structural)]
pub struct PriceFeed {
    pub block_timestamp: u64,
    pub token_0_price_x32: u128,
    pub token_1_price_x32: u128,
}

/// A cumulative price after `elapsed` more units of time at `price`. The sum
/// wraps at 128 bits; readers take differences, which the wrap leaves intact.
pub open spec fn accumulate(previous: u128, price: u128, elapsed: nat) -> u128 {
    ((previous + price * elapsed) % (u128::MAX + 1)) as u128
}

/// The oracle as a mathematical value: the flag, the place of the latest
/// sample, and the ring as a sequence.
pub struct OracleView {
    pub initialized: bool,
    pub index: int,
    pub samples: Seq<Observation>,
}

impl OracleView {
    /// The ring has its full length and the latest sample stands inside it.
    pub open spec fn wf(self) -> bool {
        &&& self.samples.len() == OBSERVATION_NUM
        &&& 0 <= self.index < OBSERVATION_NUM
    }

    /// The latest sample; meaningful once the oracle is initialized.
    pub open spec fn latest(self) -> Observation {
        self.samples[self.index]
    }

    /// Time gone by since the latest sample; none if the clock reads earlier
    /// than the sample.
    pub open spec fn elapsed(self, now: u64) -> nat {
        if now >= self.latest().block_timestamp {
            (now - self.latest().block_timestamp) as nat
        } else {
            0
        }
    }

    /// Whether feeding the oracle at `now` writes a sample: always on an
    /// oracle that has none, else only once the least time has gone by.
    pub open spec fn due(self, now: u64) -> bool {
        !self.initialized || self.elapsed(now) >= OBSERVATION_UPDATE_DURATION_DEFAULT
    }

    /// Where the next sample goes: to the start of an oracle that has none,
    /// else one place on, back to the start after the last place.
    pub open spec fn next_index(self) -> int {
        if !self.initialized {
            0
        } else {
            (self.index + 1) % (OBSERVATION_NUM as int)
        }
    }

    /// The sample that a feed gives rise to. The first sample takes the
    /// prices as they are; a later one adds, to the cumulative prices of the
    /// latest sample, the prices times the time gone by.
    pub open spec fn next_sample(self, feed: PriceFeed) -> Observation {
        if !self.initialized {
            Observation {
                block_timestamp: feed.block_timestamp,
                cumulative_token_0_price_x32: feed.token_0_price_x32,
                cumulative_token_1_price_x32: feed.token_1_price_x32,
            }
        } else {
            Observation {
                block_timestamp: feed.block_timestamp,
                cumulative_token_0_price_x32: accumulate(
                    self.latest().cumulative_token_0_price_x32,
                    feed.token_0_price_x32,
                    self.elapsed(feed.block_timestamp),
                ),
                cumulative_token_1_price_x32: accumulate(
                    self.latest().cumulative_token_1_price_x32,
                    feed.token_1_price_x32,
                    self.elapsed(feed.block_timestamp),
                ),
            }
        }
    }

    /// The oracle after a feed: unchanged if no sample is due, else with the
    /// next sample written at the next place, over whatever stood there.
    pub open spec fn fed(self, feed: PriceFeed) -> OracleView {
        if self.due(feed.block_timestamp) {
            OracleView {
                initialized: true,
                index: self.next_index(),
                samples: self.samples.update(self.next_index(), self.next_sample(feed)),
            }
        } else {
            self
        }
    }
}

impl View for ObservationState {
    type V = OracleView;

    open spec fn view(&self) -> OracleView {
        OracleView {
            initialized: self.initialized,
            index: self.observation_index as int,
            samples: self.observations@,
        }
    }
}

impl Observation {
    /// Bytes of a stored sample.
    pub const LEN: usize = 8 + 16 + 16;

    /// What every place of a new ring holds: time zero, nothing accumulated.
    pub open spec fn default_spec() -> Observation {
        Observation {
            block_timestamp: 0,
            cumulative_token_0_price_x32: 0,
            cumulative_token_1_price_x32: 0,
        }
    }

    /// The sample at time zero with nothing accumulated.
    pub fn zero() -> (o: Observation)
        ensures
            o == Observation::default_spec(),
    {
        Observation {
            block_timestamp: 0,
            cumulative_token_0_price_x32: 0,
            cumulative_token_1_price_x32: 0,
        }
    }
}

impl Default for Observation {
    fn default() -> (o: Observation)
        ensures
            o == Observation::default_spec(),
    {
        Observation::zero()
    }
}

impl ObservationState {
    /// Bytes of the stored record, its eight-byte tag included.
    pub const LEN: usize = 8 + 1 + 2 + 32 + 40 * 100 + 8 * 4;

    /// The latest sample stands inside the ring.
    pub open spec fn wf(&self) -> bool {
        self.observation_index < OBSERVATION_NUM
    }

    /// Whether the latest sample stands inside the ring.
    pub fn is_well_formed(&self) -> (b: bool)
        ensures
            b == self.wf(),
    {
        (self.observation_index as usize) < OBSERVATION_NUM
    }

    /// An oracle for the given pool, with no sample yet.
    pub fn new(pool_id: Address) -> (s: ObservationState)
        ensures
            s.wf(),
            !s.initialized,
            s.observation_index == 0,
            s.pool_id == pool_id,
            s.observations@ == Seq::new(100, |i: int| Observation::default_spec()),
            s.padding@ == Seq::new(4, |i: int| 0u64),
    {
        let s = ObservationState {
            initialized: false,
            observation_index: 0,
            pool_id,
            observations: [Observation::zero(); 100],
            padding: [0u64; 4],
        };
        assert(s.observations@ =~= Seq::new(100, |i: int| Observation::default_spec()));
        assert(s.padding@ =~= Seq::new(4, |i: int| 0u64));
        s
    }

    /// Feeds the oracle the time and the two prices at that time.
    ///
    /// An oracle without samples takes the feed as its first sample, at the
    /// start of the ring. Otherwise, while less than the least time has gone
    /// by since the latest sample, nothing changes; once it has, the next
    /// sample is written one place on, wrapping to the start after the last
    /// place and overwriting the oldest sample.
    pub fn maybe_update(
        &mut self,
        block_timestamp: u64,
        token_0_price_x32: u128,
        token_1_price_x32: u128,
    )
        requires
            old(self).wf(),
        ensures
            final(self).wf(),
            final(self)@ == old(self)@.fed(
                PriceFeed { block_timestamp, token_0_price_x32, token_1_price_x32 },
            ),
            final(self).pool_id == old(self).pool_id,
            final(self).padding == old(self).padding,
            !old(self)@.due(block_timestamp) ==> *final(self) == *old(self),
    {
        if !self.initialized {
            self.initialized = true;
            self.observation_index = 0;
            self.observations[0] = Observation {
                block_timestamp,
                cumulative_token_0_price_x32: token_0_price_x32,
                cumulative_token_1_price_x32: token_1_price_x32,
            };
            return ;
        }
        let latest = self.observations[self.observation_index as usize];
        if block_timestamp < latest.block_timestamp {
            return ;
        }
        let elapsed: u64 = block_timestamp - latest.block_timestamp;
        if elapsed < OBSERVATION_UPDATE_DURATION_DEFAULT {
            return ;
        }
        let next: u16 = if self.observation_index as usize == OBSERVATION_NUM - 1 {
            0
        } else {
            self.observation_index + 1
        };
        let sample = Observation {
            block_timestamp,
            cumulative_token_0_price_x32: accumulate_u128(
                latest.cumulative_token_0_price_x32,
                token_0_price_x32,
                elapsed,
            ),
            cumulative_token_1_price_x32: accumulate_u128(
                latest.cumulative_token_1_price_x32,
                token_1_price_x32,
                elapsed,
            ),
        };
        self.observations[next as usize] = sample;
        self.observation_index = next;
    }
}

impl Default for ObservationState {
    fn default() -> (s: ObservationState)
        ensures
            s.wf(),
            !s.initialized,
            s.observation_index == 0,
            s.pool_id@ == Seq::new(32, |i: int| 0u8),
            s.observations@ == Seq::new(100, |i: int| Observation::default_spec()),
            s.padding@ == Seq::new(4, |i: int| 0u64),
    {
        ObservationState::new(Address::zero())
    }
}

/// `previous + price * elapsed`, wrapping at 128 bits.
pub fn accumulate_u128(previous: u128, price: u128, elapsed: u64) -> (r: u128)
    ensures
        r == accumulate(previous, price, elapsed as nat),
{
    let product = price.wrapping_mul(elapsed as u128);
    let sum = previous.wrapping_add(product);
    proof {
        let m: int = u128::MAX + 1;
        let e: int = elapsed as int;
        assert(product as int == (price * e) % m);
        assert(sum as int == (previous + product) % m);
        vstd::arithmetic::div_mod::lemma_add_mod_noop(previous as int, price * e, m);
        vstd::arithmetic::div_mod::lemma_small_mod(previous as nat, m as nat);
    }
    sum
}

/// The oracle after a run of feeds, taken in order.
pub open spec fn replay(start: OracleView, feeds: Seq<PriceFeed>) -> OracleView
    decreases feeds.len(),
{
    if feeds.len() == 0 {
        start
    } else {
        replay(start, feeds.drop_last()).fed(feeds.last())
    }
}

/// Each feed of the run comes at least the least time after the one before.
pub open spec fn spaced(feeds: Seq<PriceFeed>) -> bool {
    forall|k: int|
        1 <= k < feeds.len() ==> (#[trigger] feeds[k]).block_timestamp >= feeds[k
            - 1].block_timestamp + OBSERVATION_UPDATE_DURATION_DEFAULT
}

/// A feed that follows a written sample by less than the least time changes
/// nothing: neither the place of the latest sample nor any sample.
pub proof fn lemma_feed_within_duration_changes_nothing(
    start: OracleView,
    first: PriceFeed,
    second: PriceFeed,
)
    requires
        start.wf(),
        start.due(first.block_timestamp),
        second.block_timestamp < first.block_timestamp + OBSERVATION_UPDATE_DURATION_DEFAULT,
    ensures
        start.fed(first).fed(second) == start.fed(first),
{
}

/// A feed for which no sample is due changes nothing, however often it comes.
pub proof fn lemma_feed_not_due_changes_nothing(start: OracleView, feed: PriceFeed)
    requires
        !start.due(feed.block_timestamp),
    ensures
        start.fed(feed) == start,
        start.fed(feed).fed(feed) == start,
{
}

/// What one feed that is due does to the oracle.
proof fn lemma_due_feed(before: OracleView, feed: PriceFeed)
    requires
        before.wf(),
        before.due(feed.block_timestamp),
    ensures
        before.fed(feed).wf(),
        before.fed(feed).initialized,
        before.fed(feed).index == before.next_index(),
        before.fed(feed).latest() == before.next_sample(feed),
        before.fed(feed).latest().block_timestamp == feed.block_timestamp,
{
}

/// One place on from a place counted round the ring.
proof fn lemma_one_place_on(first: int, steps: int)
    requires
        0 <= first < 100,
        0 <= steps,
    ensures
        ((first + steps) % 100 + 1) % 100 == (first + steps + 1) % 100,
        (first + 0) % 100 == first,
{
}

/// Along a spaced run whose feed at `first_due` is the first to write a
/// sample, every later feed writes one too: after `n` feeds the latest sample
/// is that of the last feed, and it stands as many places past the first
/// written one as feeds have followed it, counted round the ring.
proof fn lemma_run(start: OracleView, feeds: Seq<PriceFeed>, first_due: int, n: int)
    requires
        start.wf(),
        spaced(feeds),
        0 <= first_due < n <= feeds.len(),
        forall|k: int| 0 <= k < first_due ==> !start.due(#[trigger] feeds[k].block_timestamp),
        start.due(feeds[first_due].block_timestamp),
    ensures
        replay(start, feeds.take(n)).wf(),
        replay(start, feeds.take(n)).initialized,
        replay(start, feeds.take(n)).index == (start.next_index() + (n - 1 - first_due)) % 100,
        replay(start, feeds.take(n)).latest().block_timestamp == feeds[n - 1].block_timestamp,
        replay(start, feeds.take(n)).latest() == replay(start, feeds.take(n - 1)).next_sample(
            feeds[n - 1],
        ),
        replay(start, feeds.take(n - 1)).wf(),
        n - 1 > first_due ==> replay(start, feeds.take(n - 1)).initialized && replay(
            start,
            feeds.take(n - 1),
        ).elapsed(feeds[n - 1].block_timestamp) == feeds[n - 1].block_timestamp - feeds[n
            - 2].block_timestamp,
    decreases n,
{
    let before = replay(start, feeds.take(n - 1));
    let after = replay(start, feeds.take(n));
    assert(after == before.fed(feeds[n - 1])) by {
        assert(feeds.take(n).drop_last() =~= feeds.take(n - 1));
        assert(feeds.take(n).last() == feeds[n - 1]);
    }
    if n - 1 == first_due {
        lemma_idle_prefix(start, feeds, n - 1);
        assert(before == start);
        lemma_one_place_on(start.next_index(), 0);
    } else {
        lemma_run(start, feeds, first_due, n - 1);
        assert(feeds[n - 1].block_timestamp >= feeds[n - 2].block_timestamp
            + OBSERVATION_UPDATE_DURATION_DEFAULT);
        assert(before.due(feeds[n - 1].block_timestamp));
        lemma_one_place_on(start.next_index(), n - 2 - first_due);
    }
    lemma_due_feed(before, feeds[n - 1]);
}

/// Feeds for which no sample is due leave the oracle as it was.
proof fn lemma_idle_prefix(start: OracleView, feeds: Seq<PriceFeed>, n: int)
    requires
        0 <= n <= feeds.len(),
        forall|k: int| 0 <= k < n ==> !start.due(#[trigger] feeds[k].block_timestamp),
    ensures
        replay(start, feeds.take(n)) == start,
    decreases n,
{
    if n > 0 {
        assert(feeds.take(n).drop_last() =~= feeds.take(n - 1));
        assert(feeds.take(n).last() == feeds[n - 1]);
        lemma_idle_prefix(start, feeds, n - 1);
    }
}

/// The ring wraps round. Take 101 feeds, each at least the least time after
/// the one before, of which the first or the second writes a sample. After
/// the last of them the latest sample stands where it stood after the first
/// feed, and it is the sample of the 101st feed: its time, and the cumulative
/// prices of the 100th sample plus the 101st prices times the time between
/// the two. Where the first feed wrote a sample, that sample has been overwritten.
pub proof fn lemma_ring_wraps_round(start: OracleView, feeds: Seq<PriceFeed>)
    requires
        start.wf(),
        feeds.len() == OBSERVATION_NUM + 1,
        spaced(feeds),
        start.due(feeds[0].block_timestamp) || start.due(feeds[1].block_timestamp),
    ensures
        replay(start, feeds).index == start.fed(feeds[0]).index,
        replay(start, feeds).latest() == replay(start, feeds.take(100)).next_sample(feeds[100]),
        replay(start, feeds).latest().block_timestamp == feeds[100].block_timestamp,
        replay(start, feeds.take(100)).initialized,
        replay(start, feeds.take(100)).elapsed(feeds[100].block_timestamp)
            == feeds[100].block_timestamp - feeds[99].block_timestamp,
        start.due(feeds[0].block_timestamp) ==> start.fed(feeds[0]).latest() == start.next_sample(
            feeds[0],
        ),
{
    let last = replay(start, feeds.take(101));
    assert(last == replay(start, feeds)) by {
        assert(feeds.take(101) =~= feeds);
    }
    if start.due(feeds[0].block_timestamp) {
        lemma_run(start, feeds, 0, 101);
        lemma_due_feed(start, feeds[0]);
        lemma_full_turn(start.next_index());
    } else {
        lemma_run(start, feeds, 1, 101);
        assert(start.fed(feeds[0]) == start);
        lemma_full_turn(start.index);
    }
}

/// A hundred places on, round the ring, is the same place.
proof fn lemma_full_turn(place: int)
    requires
        0 <= place < 100,
    ensures
        (place + 100) % 100 == place,
        ((place + 1) % 100 + 99) % 100 == place,
{
}

} // verus!
