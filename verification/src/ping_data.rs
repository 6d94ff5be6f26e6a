//! The recent ping results that the plot shows, and the statistics drawn
//! from them.
//!
//! A sample is the round trip of one ping in whole milliseconds, or `None`
//! when the ping got no reply. For the statistics a lost sample counts as the
//! value -1.
use vstd::prelude::*;

verus! {

/// The value that stands for a sample in the plot: its milliseconds, or -1
/// when the ping was lost.
pub open spec fn sample_value(s: Option<u64>) -> int {
    match s {
        Some(v) => v as int,
        None => -1,
    }
}

/// The distance between two values.
pub open spec fn abs_diff(a: int, b: int) -> int {
    if a >= b {
        a - b
    } else {
        b - a
    }
}

/// The number of lost samples after the first one.
pub open spec fn lost_count(s: Seq<Option<u64>>) -> nat
    decreases s.len(),
{
    if s.len() <= 1 {
        0
    } else {
        lost_count(s.drop_last()) + if s.last() is None {
            1nat
        } else {
            0nat
        }
    }
}

/// The sum, over each answered sample after the first, of its distance from
/// the sample before it.
pub open spec fn jitter_sum(s: Seq<Option<u64>>) -> nat
    decreases s.len(),
{
    if s.len() <= 1 {
        0
    } else {
        jitter_sum(s.drop_last()) + match s.last() {
            Some(v) => abs_diff(v as int, sample_value(s[s.len() - 2])) as nat,
            None => 0nat,
        }
    }
}

/// The figures that the displayed statistics are made of. With `n` samples,
/// the variation shown is `ceil((jitter_ms + lost_packet_count * ping_timeout
/// * 1000) / n)` milliseconds and the packet loss is `lost_packet_count / n *
/// 100` percent.
pub struct PingStats<F> {
    /// Lost samples after the first one.
    pub lost_packet_count: usize,
    /// Sum of the distances between each answered sample and the one before.
    pub jitter_ms: u128,
    /// Number of samples.
    pub sample_count: usize,
    /// The ping timeout (in seconds) that a lost sample stands for.
    pub ping_timeout: F,
}

/// The statistics of the samples `s` under the timeout `t`.
pub open spec fn stats_of<F>(s: Seq<Option<u64>>, t: F) -> PingStats<F> {
    PingStats {
        lost_packet_count: lost_count(s) as usize,
        jitter_ms: jitter_sum(s) as u128,
        sample_count: s.len() as usize,
        ping_timeout: t,
    }
}

/// The samples kept after recording `sample`: the oldest one goes first when
/// more than `max_plot_points` are kept.
pub open spec fn recorded(s: Seq<Option<u64>>, sample: Option<u64>, max_plot_points: usize) -> Seq<
    Option<u64>,
> {
    if s.len() > max_plot_points {
        s.drop_first().push(sample)
    } else {
        s.push(sample)
    }
}

/// The recent samples, oldest first, and their statistics.
pub struct PingData<F> {
    plot_points: Vec<Option<u64>>,
    stats: Option<PingStats<F>>,
}

impl<F> View for PingData<F> {
    type V = Seq<Option<u64>>;

    closed spec fn view(&self) -> Seq<Option<u64>> {
        self.plot_points@
    }
}

impl<F> PingData<F> {
    /// The statistics last drawn from the samples; `None` before any sample.
    pub closed spec fn spec_stats(&self) -> Option<PingStats<F>> {
        self.stats
    }

    /// The statistics are those of the samples, and exist once there is a
    /// sample.
    pub closed spec fn wf(&self) -> bool {
        match self.stats {
            Some(st) => self.plot_points@.len() > 0 && st == stats_of(self.plot_points@, st.ping_timeout),
            None => self.plot_points@.len() == 0,
        }
    }

    /// No samples and no statistics.
    pub fn new() -> (r: Self)
        ensures
            r.wf(),
            r@ == Seq::<Option<u64>>::empty(),
            r.spec_stats() is None,
    {
        PingData { plot_points: Vec::new(), stats: None }
    }

    /// The samples, oldest first.
    pub fn plot_points(&self) -> (r: &Vec<Option<u64>>)
        ensures
            r@ == self@,
    {
        &self.plot_points
    }

    /// The newest sample, if any.
    pub fn last_sample(&self) -> (r: Option<Option<u64>>)
        ensures
            r == (if self@.len() == 0 {
                None
            } else {
                Some(self@.last())
            }),
    {
        let n = self.plot_points.len();
        if n == 0 {
            None
        } else {
            Some(self.plot_points[n - 1])
        }
    }
}

impl<F: Copy> PingData<F> {
    /// The statistics last drawn from the samples; `None` before any sample.
    pub fn stats(&self) -> (r: Option<PingStats<F>>)
        ensures
            r == self.spec_stats(),
    {
        match &self.stats {
            Some(st) => Some(
                PingStats {
                    lost_packet_count: st.lost_packet_count,
                    jitter_ms: st.jitter_ms,
                    sample_count: st.sample_count,
                    ping_timeout: st.ping_timeout,
                },
            ),
            None => None,
        }
    }

    /// Draws the statistics from the samples, a lost sample standing for
    /// `ping_timeout`; with no samples nothing changes.
    pub fn calculate_ping_stats(&mut self, ping_timeout: F)
        ensures
            final(self)@ == old(self)@,
            old(self)@.len() > 0 ==> final(self).spec_stats() == Some(
                stats_of(old(self)@, ping_timeout),
            ),
            old(self)@.len() == 0 ==> final(self).spec_stats() == old(self).spec_stats(),
    {
        let n = self.plot_points.len();
        if n == 0 {
            return;
        }
        let ghost s = self.plot_points@;
        let mut lost: usize = 0;
        let mut jitter: u128 = 0;
        let mut i: usize = 1;
        assert(s.take(1).len() == 1);
        while i < n
            invariant
                1 <= i <= n,
                n == s.len(),
                s == self.plot_points@,
                lost == lost_count(s.take(i as int)),
                jitter == jitter_sum(s.take(i as int)),
                lost < i,
                jitter <= i * 0x1_0000_0000_0000_0000,
            decreases n - i,
        {
            let cur = self.plot_points[i];
            let prev = self.plot_points[i - 1];
            let ghost t = s.take(i + 1);
            assert(t.drop_last() =~= s.take(i as int));
            assert(t.last() == cur);
            assert(t[t.len() - 2] == prev);
            match cur {
                None => {
                    lost = lost + 1;
                },
                Some(v) => {
                    let d: u128 = match prev {
                        None => v as u128 + 1,
                        Some(p) => if v >= p {
                            (v - p) as u128
                        } else {
                            (p - v) as u128
                        },
                    };
                    assert(d == abs_diff(v as int, sample_value(prev)));
                    assert(jitter + d <= (i + 1) * 0x1_0000_0000_0000_0000) by (nonlinear_arith)
                        requires
                            jitter <= i * 0x1_0000_0000_0000_0000,
                            d <= 0x1_0000_0000_0000_0000,
                    ;
                    assert((i + 1) * 0x1_0000_0000_0000_0000 <= u128::MAX) by (nonlinear_arith)
                        requires
                            i < n,
                            n <= usize::MAX,
                            usize::MAX < 0x1_0000_0000_0000_0000,
                    ;
                    jitter = jitter + d;
                },
            }
            i = i + 1;
        }
        assert(s.take(n as int) =~= s);
        self.stats = Some(
            PingStats {
                lost_packet_count: lost,
                jitter_ms: jitter,
                sample_count: n,
                ping_timeout,
            },
        );
    }

    /// Adds the newest sample, first dropping the oldest when more than
    /// `max_plot_points` are kept, and draws the statistics again.
    pub fn record(&mut self, sample: Option<u64>, max_plot_points: usize, ping_timeout: F)
        ensures
            final(self).wf(),
            final(self)@ == recorded(old(self)@, sample, max_plot_points),
            final(self).spec_stats() == Some(stats_of(final(self)@, ping_timeout)),
    {
        if self.plot_points.len() > max_plot_points {
            self.plot_points.remove(0);
        }
        self.plot_points.push(sample);
        assert(self.plot_points@ =~= recorded(old(self)@, sample, max_plot_points));
        self.calculate_ping_stats(ping_timeout);
    }
}

impl<F> Default for PingData<F> {
    fn default() -> (r: Self)
        ensures
            r.wf(),
            r@ == Seq::<Option<u64>>::empty(),
            r.spec_stats() is None,
    {
        PingData::new()
    }
}

/// Law: the first sample is never counted as lost, so fewer samples are lost
/// than there are samples and the packet loss stays below 100 percent.
pub proof fn lemma_loss_below_all(s: Seq<Option<u64>>)
    requires
        s.len() >= 1,
    ensures
        lost_count(s) < s.len(),
    decreases s.len(),
{
    if s.len() > 1 {
        lemma_loss_below_all(s.drop_last());
    }
}

/// Law: a single sample is never counted lost and jitters nothing; after that,
/// each new sample that is lost adds one lost ping whatever came before it,
/// and each answered one adds its distance from the sample before it (a lost
/// sample counting as -1).
pub proof fn lemma_stats_of_next_sample(s: Seq<Option<u64>>, x: Option<u64>)
    ensures
        lost_count(seq![x]) == 0,
        jitter_sum(seq![x]) == 0,
        s.len() >= 1 ==> lost_count(s.push(x)) == lost_count(s) + (if x is None {
            1int
        } else {
            0int
        }),
        s.len() >= 1 ==> jitter_sum(s.push(x)) == jitter_sum(s) + (match x {
            Some(v) => if v as int >= sample_value(s.last()) {
                v as int - sample_value(s.last())
            } else {
                sample_value(s.last()) - v as int
            },
            None => 0int,
        }),
{
    if s.len() >= 1 {
        assert(s.push(x).drop_last() =~= s);
        assert(s.push(x)[s.len() - 1] == s.last());
    }
}

/// Law: the lost count of a history is the number of lost samples after the
/// first one: the lost samples among all but the first.
pub proof fn lemma_lost_count_counts_losses(s: Seq<Option<u64>>)
    requires
        s.len() >= 1,
    ensures
        lost_count(s) == s.drop_first().filter(|x: Option<u64>| x is None).len(),
    decreases s.len(),
{
    let p = |x: Option<u64>| x is None;
    if s.len() == 1 {
        assert(s.drop_first() =~= Seq::<Option<u64>>::empty());
        assert(Seq::<Option<u64>>::empty().filter(p) =~= Seq::<Option<u64>>::empty());
    } else {
        lemma_lost_count_counts_losses(s.drop_last());
        let t = s.drop_last().drop_first();
        assert(s.drop_first() =~= t.push(s.last()));
        t.lemma_filter_push(s.last(), p);
    }
}

/// Law: in well-formed ping data, fewer samples are counted lost than there
/// are samples, so the packet loss shown stays below 100 percent.
pub proof fn lemma_stats_loss_below_all<F>(pd: PingData<F>)
    requires
        pd.wf(),
    ensures
        pd.spec_stats() matches Some(st) ==> st.lost_packet_count < st.sample_count,
{
    if pd.spec_stats() is Some {
        assert(pd.plot_points.len() == pd@.len());
        lemma_loss_below_all(pd@);
        lemma_lost_fits(pd@);
    }
}

/// The lost count never exceeds the number of samples.
proof fn lemma_lost_fits(s: Seq<Option<u64>>)
    ensures
        lost_count(s) <= s.len(),
    decreases s.len(),
{
    if s.len() > 1 {
        lemma_lost_fits(s.drop_last());
    }
}

/// Law: a history that holds at most `max_plot_points + 1` samples still does
/// after a sample is recorded, and the recorded sample is the newest.
pub proof fn lemma_recorded_window(s: Seq<Option<u64>>, sample: Option<u64>, max_plot_points: usize)
    requires
        s.len() <= max_plot_points + 1,
    ensures
        recorded(s, sample, max_plot_points).len() <= max_plot_points + 1,
        recorded(s, sample, max_plot_points).last() == sample,
{
}

/// Law: recording keeps the samples that stay in their order, followed by the
/// new one.
pub proof fn lemma_recorded_keeps_order(s: Seq<Option<u64>>, sample: Option<u64>, max_plot_points: usize)
    ensures
        ({
            let r = recorded(s, sample, max_plot_points);
            let dropped: int = if s.len() > max_plot_points {
                1
            } else {
                0
            };
            &&& r.len() == s.len() - dropped + 1
            &&& forall|i: int| 0 <= i < r.len() - 1 ==> r[i] == s[i + dropped]
        }),
{
}

} // verus!
