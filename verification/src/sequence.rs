//! The sequence table: the ordered, repeating list of color steps that the
//! indicator replays for each health status.

use vstd::prelude::*;

use crate::status::DeviceStatus;

verus! {

/// One step of a light pattern: a color and how long to hold it, in
/// milliseconds. Immutable once constructed.
#[derive(Clone, Copy, PartialEq, Eq, Structural, Debug)]
pub struct ColorStep {
    pub red: u8,
    pub green: u8,
    pub blue: u8,
    pub duration: u64,
}

impl ColorStep {
    pub fn new(red: u8, green: u8, blue: u8, duration: u64) -> (step: ColorStep)
        ensures
            step == (ColorStep { red, green, blue, duration }),
    {
        ColorStep { red, green, blue, duration }
    }

    /// The three-byte frame in the green-red-blue order that the addressable
    /// LED expects on the wire.
    pub fn grb_frame(&self) -> (frame: Vec<u8>)
        ensures
            frame@ == seq![self.green, self.red, self.blue],
    {
        let mut frame: Vec<u8> = Vec::new();
        frame.push(self.green);
        frame.push(self.red);
        frame.push(self.blue);
        proof {
            assert(frame@ =~= seq![self.green, self.red, self.blue]);
        }
        frame
    }
}

impl DeviceStatus {
    /// The pattern assigned to each status: a slow green pulse for Nominal, a
    /// fast red blink for a connectivity fault, a short magenta pulse with a
    /// long pause for a telemetry fault.
    pub open spec fn spec_light_sequence(self) -> Seq<ColorStep> {
        match self {
            DeviceStatus::Nominal => seq![
                ColorStep { red: 0, green: 255, blue: 0, duration: 500 },
                ColorStep { red: 0, green: 0, blue: 0, duration: 500 },
            ],
            DeviceStatus::ConnectivityFault => seq![
                ColorStep { red: 255, green: 0, blue: 0, duration: 200 },
                ColorStep { red: 0, green: 0, blue: 0, duration: 100 },
            ],
            DeviceStatus::TelemetryFault => seq![
                ColorStep { red: 255, green: 0, blue: 255, duration: 100 },
                ColorStep { red: 0, green: 0, blue: 0, duration: 300 },
            ],
        }
    }

    /// The ordered, repeating sequence of color steps for this status. Pure
    /// and total over the closed enumeration.
    pub fn light_sequence(&self) -> (sequence: Vec<ColorStep>)
        ensures
            sequence@ == self.spec_light_sequence(),
    {
        let mut sequence: Vec<ColorStep> = Vec::new();
        match self {
            DeviceStatus::Nominal => {
                sequence.push(ColorStep::new(0, 255, 0, 500));
                sequence.push(ColorStep::new(0, 0, 0, 500));
            }
            DeviceStatus::ConnectivityFault => {
                sequence.push(ColorStep::new(255, 0, 0, 200));
                sequence.push(ColorStep::new(0, 0, 0, 100));
            }
            DeviceStatus::TelemetryFault => {
                sequence.push(ColorStep::new(255, 0, 255, 100));
                sequence.push(ColorStep::new(0, 0, 0, 300));
            }
        }
        proof {
            assert(sequence@ =~= self.spec_light_sequence());
        }
        sequence
    }
}

/// Every status has a pattern, the pattern is non-empty, and it is a function
/// of the status alone: any two sequences produced for the same status are
/// equal.
pub proof fn lemma_light_sequence_deterministic(
    s: DeviceStatus,
    a: Seq<ColorStep>,
    b: Seq<ColorStep>,
)
    requires
        a == s.spec_light_sequence(),
        b == s.spec_light_sequence(),
    ensures
        a == b,
        a.len() > 0,
{
}

} // verus!
