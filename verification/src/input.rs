//! The hotkey monitor: turns the key's level, sampled once per tick, into
//! toggle edges.

use vstd::prelude::*;

verus! {

/// Virtual-key code of the hotkey that toggles the overlay: the right shift key.
pub const TOGGLE_KEY: u16 = 0xA1;

/// Whether a key is down, from the state word that the operating system
/// reports for it: the key is down when the word's most significant bit is set.
pub fn key_is_down(state: i16) -> (down: bool)
    ensures
        down == (state < 0),
        down == ((state as u16) & 0x8000 != 0),
{
    assert((state < 0) == ((state as u16) & 0x8000 != 0)) by (bit_vector);
    state < 0
}

/// A toggle edge: the key is down now and was not down at the previous sample.
pub open spec fn rising_edge(was_down: bool, is_down: bool) -> bool {
    !was_down && is_down
}

/// Remembers whether the hotkey was down at the previous tick.
#[derive(Clone, Copy, Debug, PartialEq, Eq, Structural)]
pub struct InputMonitor {
    /// The key's level at the previous sample.
    pub was_down: bool,
}

impl InputMonitor {
    /// What one sample does to the monitor: the monitor afterwards, and
    /// whether the sample is a toggle edge.
    pub open spec fn step(self, is_down: bool) -> (InputMonitor, bool) {
        (InputMonitor { was_down: is_down }, rising_edge(self.was_down, is_down))
    }

    /// The monitor after a run of samples, one per tick.
    pub open spec fn after(self, samples: Seq<bool>) -> InputMonitor
        decreases samples.len(),
    {
        if samples.len() == 0 {
            self
        } else {
            self.after(samples.drop_last()).step(samples.last()).0
        }
    }

    /// The edges reported over a run of samples, one per tick.
    pub open spec fn edges(self, samples: Seq<bool>) -> Seq<bool>
        decreases samples.len(),
    {
        if samples.len() == 0 {
            Seq::empty()
        } else {
            self.edges(samples.drop_last()).push(
                self.after(samples.drop_last()).step(samples.last()).1,
            )
        }
    }

    /// A monitor that has seen the key up.
    pub fn new() -> (monitor: InputMonitor)
        ensures
            monitor == (InputMonitor { was_down: false }),
    {
        InputMonitor { was_down: false }
    }

    /// Takes this tick's sample of the key and reports whether the key went
    /// down since the previous sample. Call it once per tick.
    pub fn poll_toggle_edge(&mut self, is_down: bool) -> (edge: bool)
        ensures
            (*final(self), edge) == old(self).step(is_down),
            edge == (is_down && !old(self).was_down),
            final(self).was_down == is_down,
    {
        let edge = is_down && !self.was_down;
        self.was_down = is_down;
        edge
    }
}

/// How many of `flags` are set.
pub open spec fn count_set(flags: Seq<bool>) -> nat
    decreases flags.len(),
{
    if flags.len() == 0 {
        0
    } else {
        count_set(flags.drop_last()) + if flags.last() { 1nat } else { 0nat }
    }
}

/// `samples` holds the key down at every tick.
pub open spec fn held_down(samples: Seq<bool>) -> bool {
    forall|i: int| 0 <= i < samples.len() ==> samples[i]
}

/// Over any run of samples there is one report per sample, the report at tick
/// `i` is an edge exactly when sample `i` is down and the sample before it (or,
/// at the first tick, the monitor's memory) is up, and the monitor ends up
/// remembering the last sample.
pub proof fn lemma_edges_follow_samples(monitor: InputMonitor, samples: Seq<bool>)
    ensures
        monitor.edges(samples).len() == samples.len(),
        samples.len() > 0 ==> monitor.after(samples).was_down == samples.last(),
        samples.len() == 0 ==> monitor.after(samples) == monitor,
        forall|i: int|
            0 <= i < samples.len() ==> #[trigger] monitor.edges(samples)[i] == rising_edge(
                if i == 0 {
                    monitor.was_down
                } else {
                    samples[i - 1]
                },
                samples[i],
            ),
    decreases samples.len(),
{
    if samples.len() > 0 {
        let front = samples.drop_last();
        lemma_edges_follow_samples(monitor, front);
        assert forall|i: int| 0 <= i < samples.len() implies #[trigger] monitor.edges(samples)[i]
            == rising_edge(
            if i == 0 {
                monitor.was_down
            } else {
                samples[i - 1]
            },
            samples[i],
        ) by {
            if i < front.len() {
                assert(monitor.edges(samples)[i] == monitor.edges(front)[i]);
            }
        }
    }
}

/// A key that was up and is then held down for any number of ticks toggles
/// exactly once, at the first of those ticks.
pub proof fn lemma_held_key_fires_once(monitor: InputMonitor, samples: Seq<bool>)
    requires
        !monitor.was_down,
        samples.len() > 0,
        held_down(samples),
    ensures
        count_set(monitor.edges(samples)) == 1,
        monitor.edges(samples)[0],
        forall|i: int| 1 <= i < samples.len() ==> !#[trigger] monitor.edges(samples)[i],
    decreases samples.len(),
{
    lemma_edges_follow_samples(monitor, samples);
    let front = samples.drop_last();
    assert(monitor.edges(samples).drop_last() =~= monitor.edges(front));
    if front.len() > 0 {
        assert(held_down(front)) by {
            assert forall|i: int| 0 <= i < front.len() implies front[i] by {
                assert(front[i] == samples[i]);
            }
        }
        lemma_held_key_fires_once(monitor, front);
        lemma_edges_follow_samples(monitor, front);
    } else {
        assert(count_set(monitor.edges(front)) == 0);
    }
}

/// A key that is already down when the monitor starts, and stays down, never
/// toggles.
pub proof fn lemma_key_already_down_is_silent(monitor: InputMonitor, samples: Seq<bool>)
    requires
        monitor.was_down,
        held_down(samples),
    ensures
        count_set(monitor.edges(samples)) == 0,
    decreases samples.len(),
{
    lemma_edges_follow_samples(monitor, samples);
    if samples.len() > 0 {
        let front = samples.drop_last();
        assert(monitor.edges(samples).drop_last() =~= monitor.edges(front));
        assert(held_down(front)) by {
            assert forall|i: int| 0 <= i < front.len() implies front[i] by {
                assert(front[i] == samples[i]);
            }
        }
        lemma_key_already_down_is_silent(monitor, front);
    }
}

/// Between two toggles the key was released: if ticks `first` and `second`
/// both report an edge, some tick strictly between them sampled the key up.
pub proof fn lemma_refire_needs_release(
    monitor: InputMonitor,
    samples: Seq<bool>,
    first: int,
    second: int,
)
    requires
        0 <= first < second < samples.len(),
        monitor.edges(samples)[first],
        monitor.edges(samples)[second],
    ensures
        first < second - 1,
        !samples[second - 1],
        exists|released: int| first < released < second && !samples[released],
{
    lemma_edges_follow_samples(monitor, samples);
    assert(samples[first] && !samples[second - 1]);
}

} // verus!
