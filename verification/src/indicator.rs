//! The indicator driver's state machine. One `tick` is one step boundary: the
//! driver decodes the shared status byte, adopts the new pattern if the status
//! changed, and emits the next step of the active pattern for the embedding to
//! drive into the LED and hold for the step's duration. Status changes are
//! therefore applied only at step boundaries, and an undecodable byte leaves
//! the active pattern replaying untouched.

use vstd::prelude::*;

use crate::sequence::ColorStep;
use crate::status::DeviceStatus;

verus! {

/// Mathematical model of the indicator: the last applied status, the active
/// pattern, and the index of the next step to emit.
pub struct IndicatorModel {
    pub applied: Option<DeviceStatus>,
    pub sequence: Seq<ColorStep>,
    pub cursor: nat,
}

impl IndicatorModel {
    /// Well-formedness: once a status has been applied the active pattern is
    /// exactly its sequence and the cursor stays inside it; before the first
    /// valid decode nothing is active.
    pub open spec fn wf(self) -> bool {
        match self.applied {
            Some(s) => self.sequence == s.spec_light_sequence() && self.cursor
                < self.sequence.len(),
            None => self.sequence == Seq::<ColorStep>::empty() && self.cursor == 0,
        }
    }

    /// The state after the decode at a step boundary: a valid status that
    /// differs from the applied one replaces the pattern and rewinds the
    /// cursor; an equal status or an undecodable byte changes nothing.
    pub open spec fn sync_spec(self, raw: u8) -> IndicatorModel {
        match DeviceStatus::spec_decode(raw) {
            Some(s) => if self.applied == Some(s) {
                self
            } else {
                IndicatorModel { applied: Some(s), sequence: s.spec_light_sequence(), cursor: 0 }
            },
            None => self,
        }
    }

    /// The step emitted at this boundary, if any pattern is active.
    pub open spec fn emit_spec(self, raw: u8) -> Option<ColorStep> {
        let synced = self.sync_spec(raw);
        if synced.sequence.len() == 0 {
            None
        } else {
            Some(synced.sequence[synced.cursor as int])
        }
    }

    /// The state after the boundary: synced, with the cursor advanced one
    /// step, wrapping to the first step after the last.
    pub open spec fn step_spec(self, raw: u8) -> IndicatorModel {
        let synced = self.sync_spec(raw);
        if synced.sequence.len() == 0 {
            synced
        } else {
            IndicatorModel {
                applied: synced.applied,
                sequence: synced.sequence,
                cursor: if synced.cursor + 1 == synced.sequence.len() {
                    0
                } else {
                    synced.cursor + 1
                },
            }
        }
    }
}

/// The indicator driver's replay state.
pub struct Indicator {
    applied: Option<DeviceStatus>,
    sequence: Vec<ColorStep>,
    cursor: usize,
}

impl View for Indicator {
    type V = IndicatorModel;

    closed spec fn view(&self) -> IndicatorModel {
        IndicatorModel {
            applied: self.applied,
            sequence: self.sequence@,
            cursor: self.cursor as nat,
        }
    }
}

/// Every status's pattern holds exactly two steps.
pub proof fn lemma_pattern_len(s: DeviceStatus)
    ensures
        s.spec_light_sequence().len() == 2,
{
}

impl Indicator {
    /// A fresh indicator with no pattern active: nothing is displayed until
    /// the first valid status is observed.
    pub fn new() -> (ind: Indicator)
        ensures
            ind@ == (IndicatorModel {
                applied: None::<DeviceStatus>,
                sequence: Seq::<ColorStep>::empty(),
                cursor: 0nat,
            }),
            ind@.wf(),
    {
        let ind = Indicator { applied: None, sequence: Vec::new(), cursor: 0 };
        proof {
            assert(ind@.sequence =~= Seq::<ColorStep>::empty());
        }
        ind
    }

    /// One step boundary: decode `raw`, adopt a changed status's pattern, and
    /// hand back the step to display now (the caller holds it for
    /// `lit.duration` milliseconds before the next tick).
    pub fn tick(&mut self, raw: u8) -> (lit: Option<ColorStep>)
        requires
            old(self)@.wf(),
        ensures
            final(self)@ == old(self)@.step_spec(raw),
            lit == old(self)@.emit_spec(raw),
            final(self)@.wf(),
    {
        match DeviceStatus::try_from(raw) {
            Ok(s) => {
                let changed = match self.applied {
                    Some(p) => p != s,
                    None => true,
                };
                if changed {
                    self.applied = Some(s);
                    self.sequence = s.light_sequence();
                    self.cursor = 0;
                    proof {
                        lemma_pattern_len(s);
                    }
                }
            },
            Err(_) => {},
        }
        if self.sequence.len() == 0 {
            None
        } else {
            let step = self.sequence[self.cursor];
            self.cursor = if self.cursor + 1 == self.sequence.len() {
                0
            } else {
                self.cursor + 1
            };
            Some(step)
        }
    }
}

/// The model after `n` step boundaries, all observing the same raw byte.
pub open spec fn run(m: IndicatorModel, raw: u8, n: nat) -> IndicatorModel
    decreases n,
{
    if n == 0 {
        m
    } else {
        run(m, raw, (n - 1) as nat).step_spec(raw)
    }
}

/// The step emitted at the `n`-th boundary (counting from 0) while the same
/// raw byte is observed.
pub open spec fn emitted(m: IndicatorModel, raw: u8, n: nat) -> Option<ColorStep> {
    run(m, raw, n).emit_spec(raw)
}

/// Eventual consistency of the indicator: while the shared cell holds one
/// decodable status, the new pattern is adopted at the very first step
/// boundary and never abandoned, and the emitted steps are exactly that
/// status's sequence replayed cyclically — so a status held steady for a full
/// period displays as `spec_light_sequence(status)` repeated.
pub proof fn lemma_steady_status_replays(m: IndicatorModel, raw: u8, s: DeviceStatus, i: nat)
    requires
        m.wf(),
        DeviceStatus::spec_decode(raw) == Some(s),
    ensures
        ({
            let start = if m.applied == Some(s) {
                m.cursor
            } else {
                0nat
            };
            let pattern = s.spec_light_sequence();
            &&& run(m, raw, i).wf()
            &&& i >= 1 ==> run(m, raw, i).applied == Some(s)
            &&& i >= 1 ==> run(m, raw, i).sequence == pattern
            &&& i >= 1 ==> run(m, raw, i).cursor == (start + i) % pattern.len()
            &&& emitted(m, raw, i) == Some(pattern[((start + i) % pattern.len()) as int])
        }),
    decreases i,
{
    lemma_pattern_len(s);
    let start = if m.applied == Some(s) {
        m.cursor
    } else {
        0nat
    };
    let pattern = s.spec_light_sequence();
    if i == 0 {
        assert(start < 2);
        assert((start + 0) % pattern.len() == start);
    } else {
        lemma_steady_status_replays(m, raw, s, (i - 1) as nat);
        let prev = run(m, raw, (i - 1) as nat);
        if i == 1 {
            assert(prev == m);
            assert(prev.sync_spec(raw).cursor == start);
            assert(prev.sync_spec(raw).sequence == pattern);
        }
        assert(run(m, raw, i) == prev.step_spec(raw));
        let c: int = if i == 1 {
            start as int
        } else {
            (start + (i - 1)) % (pattern.len() as int)
        };
        assert(c < 2);
        assert(run(m, raw, i).cursor == (if c + 1 == 2 {
            0int
        } else {
            c + 1
        }));
        assert((start + i) % 2 == (if c + 1 == 2 {
            0int
        } else {
            c + 1
        }));
    }
}

/// An undecodable raw value never disturbs the indicator: the applied status
/// and the active pattern are unchanged (no reset to a default), and the
/// previous pattern keeps replaying.
pub proof fn lemma_invalid_raw_keeps_pattern(m: IndicatorModel, raw: u8)
    requires
        m.wf(),
        DeviceStatus::spec_decode(raw) is None,
    ensures
        m.step_spec(raw).applied == m.applied,
        m.step_spec(raw).sequence == m.sequence,
        m.step_spec(raw).wf(),
        m.emit_spec(raw) == (if m.sequence.len() == 0 {
            None::<ColorStep>
        } else {
            Some(m.sequence[m.cursor as int])
        }),
{
}

} // verus!
