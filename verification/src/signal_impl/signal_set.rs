//! A set of pending signals, one bit per signal number.

use vstd::prelude::*;

use crate::signal_defs::{lemma_signal_number_round_trip, signal_number, signal_of_number, SignalNo};

verus! {

/// Bitset of pending signals. Bit `n` stands for the signal numbered `n`;
/// `ERR` is never recorded.
#[derive(Clone, Copy, Debug)]
pub struct SignalSet {
    bits: u64,
}

/// Whether bit `n` of `bits` is set.
pub open spec fn bit_set(bits: u64, n: nat) -> bool {
    n < 64 && bits & (1u64 << n) != 0
}

proof fn lemma_or_bit(b: u64, n: u64, m: u64)
    requires
        n < 64,
        m < 64,
    ensures
        (b | (1u64 << n)) & (1u64 << m) != 0 <==> (b & (1u64 << m) != 0 || n == m),
{
    assert((b | (1u64 << n)) & (1u64 << m) != 0 <==> (b & (1u64 << m) != 0 || n == m))
        by (bit_vector)
        requires
            n < 64,
            m < 64,
    ;
}

proof fn lemma_clear_bit(b: u64, n: u64, m: u64)
    requires
        n < 64,
        m < 64,
    ensures
        (b & !(1u64 << n)) & (1u64 << m) != 0 <==> (b & (1u64 << m) != 0 && n != m),
{
    assert((b & !(1u64 << n)) & (1u64 << m) != 0 <==> (b & (1u64 << m) != 0 && n != m))
        by (bit_vector)
        requires
            n < 64,
            m < 64,
    ;
}

proof fn lemma_zero_bits(m: u64)
    requires
        m < 64,
    ensures
        0u64 & (1u64 << m) == 0,
{
    assert(0u64 & (1u64 << m) == 0) by (bit_vector);
}

impl SignalSet {
    /// Whether the set holds `signal`.
    pub closed spec fn has(self, signal: SignalNo) -> bool {
        signal != SignalNo::ERR && bit_set(self.bits, signal_number(signal))
    }

    /// The signals in the set.
    pub open spec fn view(self) -> Set<SignalNo> {
        Set::new(|s: SignalNo| self.has(s))
    }

    /// `ERR` is never in a set.
    pub proof fn lemma_no_err(self)
        ensures
            !self@.contains(SignalNo::ERR),
    {
    }

    /// The set with no signal in it.
    pub fn new() -> (r: SignalSet)
        ensures
            forall|s: SignalNo| !#[trigger] r.has(s),
    {
        let r = SignalSet { bits: 0 };
        proof {
            assert forall|s: SignalNo| !#[trigger] r.has(s) by {
                lemma_signal_number_round_trip(s, 0);
                lemma_zero_bits(signal_number(s) as u64);
            }
        }
        r
    }

    /// The bit that stands for `signal`, or `None` for `ERR`.
    fn bit_of(signal: SignalNo) -> (r: Option<u64>)
        ensures
            signal == SignalNo::ERR ==> r is None,
            signal != SignalNo::ERR ==> r == Some(1u64 << signal_number(signal)),
    {
        match signal {
            SignalNo::ERR => None,
            _ => {
                let n = signal.number();
                proof {
                    lemma_signal_number_round_trip(signal, 0);
                }
                Some(1u64 << (n as u64))
            },
        }
    }

    /// Adds `signal` to the set (`ERR` is not recorded).
    pub fn add(&mut self, signal: SignalNo)
        ensures
            forall|s: SignalNo|
                #[trigger] final(self).has(s) == (old(self).has(s) || (s == signal && s
                    != SignalNo::ERR)),
    {
        if let Some(bit) = Self::bit_of(signal) {
            let ghost b = self.bits;
            self.bits = self.bits | bit;
            proof {
                assert forall|s: SignalNo| #[trigger]
                    self.has(s) == (old(self).has(s) || (s == signal && s != SignalNo::ERR)) by {
                    lemma_signal_number_round_trip(s, 0);
                    lemma_signal_number_round_trip(signal, 0);
                    lemma_or_bit(b, signal_number(signal) as u64, signal_number(s) as u64);
                    if signal_number(s) == signal_number(signal) {
                        assert(s == signal);
                    }
                }
            }
        }
    }

    /// Removes `signal`; whether it was in the set.
    pub fn remove(&mut self, signal: SignalNo) -> (r: bool)
        ensures
            r == old(self).has(signal),
            forall|s: SignalNo| #[trigger] final(self).has(s) == (old(self).has(s) && s != signal),
    {
        if let Some(bit) = Self::bit_of(signal) {
            let ghost b = self.bits;
            let present = self.bits & bit != 0;
            self.bits = self.bits & !bit;
            proof {
                assert forall|s: SignalNo| #[trigger]
                    self.has(s) == (old(self).has(s) && s != signal) by {
                    lemma_signal_number_round_trip(s, 0);
                    lemma_signal_number_round_trip(signal, 0);
                    lemma_clear_bit(b, signal_number(signal) as u64, signal_number(s) as u64);
                    if signal_number(s) == signal_number(signal) {
                        assert(s == signal);
                    }
                }
            }
            return present;
        }
        false
    }

    /// Whether `signal` is in the set.
    pub fn contains(&self, signal: SignalNo) -> (r: bool)
        ensures
            r == self.has(signal),
    {
        match Self::bit_of(signal) {
            Some(bit) => self.bits & bit != 0,
            None => false,
        }
    }

    /// Whether the set holds no signal.
    pub fn is_empty(&self) -> (r: bool)
        ensures
            r == (self@ == Set::<SignalNo>::empty()),
    {
        let mut raw: usize = 1;
        while raw < 64
            invariant
                1 <= raw <= 64,
                forall|m: int| 1 <= m < raw ==> !self.has(#[trigger] signal_of_number(m)),
            decreases 64 - raw,
        {
            let signal = SignalNo::from(raw);
            if self.contains(signal) {
                proof {
                    assert(self@.contains(signal));
                    assert(self@ != Set::<SignalNo>::empty());
                }
                return false;
            }
            raw = raw + 1;
        }
        proof {
            assert forall|s: SignalNo| !self@.contains(s) by {
                lemma_signal_number_round_trip(s, 0);
                if self.has(s) {
                    let n = signal_number(s) as int;
                    assert(signal_of_number(n) == s);
                    if n == 0 {
                        lemma_signal_number_round_trip(SignalNo::ERR, 0);
                    }
                    assert(!self.has(signal_of_number(n)));
                }
            }
            assert(self@ =~= Set::<SignalNo>::empty());
        }
        true
    }

    /// Empties the set.
    pub fn clear(&mut self)
        ensures
            forall|s: SignalNo| !#[trigger] final(self).has(s),
    {
        self.bits = 0;
        proof {
            assert forall|s: SignalNo| !#[trigger] self.has(s) by {
                lemma_signal_number_round_trip(s, 0);
                lemma_zero_bits(signal_number(s) as u64);
            }
        }
    }
}

impl Default for SignalSet {
    /// The empty set.
    fn default() -> (r: SignalSet)
        ensures
            forall|s: SignalNo| !#[trigger] r.has(s),
    {
        SignalSet::new()
    }
}

} // verus!
