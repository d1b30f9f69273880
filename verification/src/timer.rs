//! The performance timer: the frequency of the tick counter, resolved once.

use vstd::prelude::*;

verus! {

/// What a query of the frequency returns and what the timer remembers afterwards, for a
/// timer that remembers `cached` and a probe that would yield `probed`: a frequency that
/// is remembered is returned and stays; otherwise the probed frequency is returned and
/// remembered, zero included.
pub open spec fn query(cached: Option<u64>, probed: u64) -> (u64, Option<u64>) {
    match cached {
        Some(frequency) => (frequency, Some(frequency)),
        None => (probed, Some(probed)),
    }
}

/// The frequencies that a timer returns in a row of queries, where the probe would yield
/// `probes[i]` at the query `i`.
pub open spec fn queries(cached: Option<u64>, probes: Seq<u64>) -> Seq<u64>
    decreases probes.len(),
{
    if probes.len() == 0 {
        Seq::empty()
    } else {
        seq![query(cached, probes[0]).0] + queries(query(cached, probes[0]).1, probes.drop_first())
    }
}

/// Every query returns what the first query returned, whatever the probe would yield
/// later: the frequency given at construction if there was one, and otherwise what the
/// probe yielded at the first query, zero included.
pub proof fn lemma_frequency_is_resolved_once(cached: Option<u64>, probes: Seq<u64>, i: int)
    requires
        0 <= i < probes.len(),
    ensures
        queries(cached, probes).len() == probes.len(),
        queries(cached, probes)[i] == queries(cached, probes)[0],
        queries(cached, probes)[0] == (match cached {
            Some(frequency) => frequency,
            None => probes[0],
        }),
    decreases probes.len(),
{
    let rest = probes.drop_first();
    let next = query(cached, probes[0]).1;
    lemma_queries_len(next, rest);
    if i > 0 {
        lemma_frequency_is_resolved_once(next, rest, i - 1);
        lemma_frequency_is_resolved_once(next, rest, 0);
    }
}

/// A row of queries returns one frequency for each query.
pub proof fn lemma_queries_len(cached: Option<u64>, probes: Seq<u64>)
    ensures
        queries(cached, probes).len() == probes.len(),
    decreases probes.len(),
{
    if probes.len() > 0 {
        lemma_queries_len(query(cached, probes[0]).1, probes.drop_first());
    }
}

/// The frequency of the time-stamp counter as the processor states it: the frequency of
/// the crystal clock (`ecx`) times the ratio of the counter to the crystal clock (`ebx` to
/// `eax`), if none of the three is zero.
pub open spec fn crystal_frequency(eax: u32, ebx: u32, ecx: u32) -> Option<u64> {
    if eax != 0 && ebx != 0 && ecx != 0 {
        Some(((ecx as int * ebx as int) / (eax as int)) as u64)
    } else {
        None
    }
}

/// The frequency of a processor with the base frequency `base_mhz`, given in MHz.
pub open spec fn nominal_frequency(base_mhz: u32) -> u64 {
    (base_mhz as int * 1_000_000) as u64
}

/// The frequency of the time-stamp counter of an x86 processor: the frequency that follows
/// from the crystal clock where the processor states it, and else the base frequency,
/// which is zero where the processor states none.
pub open spec fn x86_frequency(crystal: (u32, u32, u32), base_mhz: u32) -> u64 {
    match crystal_frequency(crystal.0, crystal.1, crystal.2) {
        Some(frequency) => frequency,
        None => nominal_frequency(base_mhz),
    }
}

/// Returns the frequency of the time-stamp counter of an x86 processor. `crystal` holds
/// the registers `eax`, `ebx` and `ecx` of the processor's leaf on the time-stamp counter
/// and the crystal clock, `base_mhz` the register `eax` of its leaf on the processor
/// frequency.
pub fn x86_perf_frequency(crystal: (u32, u32, u32), base_mhz: u32) -> (frequency: u64)
    ensures
        frequency == x86_frequency(crystal, base_mhz),
{
    let (eax, ebx, ecx) = crystal;
    if eax != 0 && ebx != 0 && ecx != 0 {
        assert(ecx as u64 * ebx as u64 <= 0xFFFF_FFFF * 0xFFFF_FFFF) by (nonlinear_arith)
            requires
                ecx <= 0xFFFF_FFFF,
                ebx <= 0xFFFF_FFFF,
        ;
        (ecx as u64 * ebx as u64) / eax as u64
    } else {
        base_mhz as u64 * 1_000_000
    }
}

/// The performance timer. It holds the frequency of the tick counter, in Hz, once the
/// frequency is known.
#[derive(Debug)]
pub struct PerfTimer {
    frequency: u64,
    resolved: bool,
}

impl View for PerfTimer {
    type V = Option<u64>;

    /// The frequency that the timer remembers.
    closed spec fn view(&self) -> Option<u64> {
        if self.resolved {
            Some(self.frequency)
        } else {
            None
        }
    }
}

impl PerfTimer {
    /// Creates a timer that does not know its frequency yet.
    pub fn new() -> (timer: Self)
        ensures
            timer@ == None::<u64>,
    {
        Self { frequency: 0, resolved: false }
    }

    /// Creates a timer with the given frequency. A frequency of zero is no frequency: the
    /// timer does not know its frequency yet.
    pub fn with_frequency(frequency: u64) -> (timer: Self)
        ensures
            timer@ == (if frequency != 0 {
                Some(frequency)
            } else {
                None
            }),
    {
        Self { frequency, resolved: frequency != 0 }
    }

    /// Returns the frequency that the timer remembers.
    pub fn cached_frequency(&self) -> (cached: Option<u64>)
        ensures
            cached == self@,
    {
        if self.resolved {
            Some(self.frequency)
        } else {
            None
        }
    }

    /// Returns the frequency of the timer, where `probed` is what the probe yields. A
    /// timer that does not know its frequency takes `probed` for it and remembers it.
    pub fn resolve(&mut self, probed: u64) -> (frequency: u64)
        ensures
            (frequency, final(self)@) == query(old(self)@, probed),
    {
        if !self.resolved {
            self.frequency = probed;
            self.resolved = true;
        }
        self.frequency
    }

    /// Returns the frequency of the timer. A timer that does not know its frequency calls
    /// `probe` for it and remembers what the probe yields; a timer that knows its
    /// frequency does not call the probe.
    pub fn perf_frequency<F: FnOnce() -> u64>(&mut self, probe: F) -> (frequency: u64)
        requires
            call_requires(probe, ()),
        ensures
            old(self)@ is Some ==> (frequency, final(self)@) == query(old(self)@, 0),
            old(self)@ is None ==> call_ensures(probe, (), frequency) && final(self)@ == Some(
                frequency,
            ),
    {
        if self.resolved {
            self.frequency
        } else {
            let probed = probe();
            self.resolve(probed)
        }
    }
}

impl Default for PerfTimer {
    fn default() -> (timer: Self)
        ensures
            timer@ == None::<u64>,
    {
        Self::new()
    }
}

} // verus!
