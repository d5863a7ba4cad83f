use vstd::prelude::*;

verus! {

/// Number of sampling cycles whose readings are discarded while the sensor
/// heats up.
pub const WARMUP_CYCLES: u8 = 12;

/// The counter value after one more cycle: it counts up to one past the
/// threshold and then stays there.
pub open spec fn counted_after(c: nat) -> nat {
    if c <= WARMUP_CYCLES as nat {
        c + 1
    } else {
        c
    }
}

/// Whether a counter value lets readings through.
pub open spec fn gate_open(c: nat) -> bool {
    c > WARMUP_CYCLES as nat
}

/// The counter value after `n` cycles from a fresh gate.
pub open spec fn counted_after_cycles(n: nat) -> nat {
    if n <= WARMUP_CYCLES as nat + 1 {
        n
    } else {
        WARMUP_CYCLES as nat + 1
    }
}

/// Suppresses publishing during the sensor's warm-up period.
///
/// Each call of `pass_cycle` counts one cycle; readings are held back for the first
/// `WARMUP_CYCLES` calls and let through from then on, for good.
pub struct WarmupGate {
    counted: u8,
}

impl View for WarmupGate {
    type V = nat;

    closed spec fn view(&self) -> nat {
        self.counted as nat
    }
}

impl WarmupGate {
    /// A gate that has counted no cycle yet.
    pub fn new() -> (r: WarmupGate)
        ensures
            r@ == 0,
    {
        WarmupGate { counted: 0 }
    }

    /// Counts one cycle and says whether its reading may be published.
    pub fn pass_cycle(&mut self) -> (r: bool)
        ensures
            final(self)@ == counted_after(old(self)@),
            r == gate_open(final(self)@),
    {
        if self.counted <= WARMUP_CYCLES {
            self.counted = self.counted + 1;
        }
        self.counted > WARMUP_CYCLES
    }

    /// Whether warm-up is over, without counting a cycle.
    pub fn is_open(&self) -> (r: bool)
        ensures
            r == gate_open(self@),
    {
        self.counted > WARMUP_CYCLES
    }

    /// The number of cycles counted, up to one past the threshold.
    pub fn counted(&self) -> (r: u8)
        ensures
            r as nat == self@,
    {
        self.counted
    }
}

/// The counter moves by `counted_after` and a fresh gate starts at zero, so
/// after `n` calls of `pass_cycle` it holds `counted_after_cycles(n)`; the `n`-th
/// call (counting from one) is let through exactly when `n` exceeds the threshold.
pub proof fn lemma_pass_sequence(n: nat)
    ensures
        counted_after(counted_after_cycles(n)) == counted_after_cycles(n + 1),
        gate_open(counted_after_cycles(n + 1)) <==> n + 1 > WARMUP_CYCLES as nat,
        counted_after_cycles(0) == 0,
{
}

/// Warm-up ends once and for all: a counter value that lets readings through still does
/// after any further cycle, while every value up to the threshold refuses.
pub proof fn lemma_gate_latches(c: nat)
    ensures
        gate_open(c) ==> gate_open(counted_after(c)),
        c <= WARMUP_CYCLES as nat ==> !gate_open(c),
        c > WARMUP_CYCLES as nat ==> gate_open(c),
{
}

/// Repeated cycles never close an open gate: after any number `k` of further
/// cycles from a counter value that lets readings through, it still does.
pub proof fn lemma_gate_stays_open(c: nat, k: nat)
    requires
        gate_open(c),
    ensures
        gate_open(counted_after_k(c, k)),
    decreases k,
{
    if k > 0 {
        lemma_gate_stays_open(counted_after(c), (k - 1) as nat);
    }
}

/// The counter value after `k` cycles from `c`.
pub open spec fn counted_after_k(c: nat, k: nat) -> nat
    decreases k,
{
    if k == 0 {
        c
    } else {
        counted_after_k(counted_after(c), (k - 1) as nat)
    }
}

} // verus!
