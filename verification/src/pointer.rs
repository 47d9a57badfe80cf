//! The pointer event forwarder.
//!
//! The host delivers move, press and release events with raw screen
//! coordinates; each becomes exactly one record for the diagnostic log
//! sink. Nothing is clamped, converted to surface-local coordinates, or
//! dropped: [`forward`] maps one event to its record, and [`forward_all`]
//! keeps dispatch order, one record per event.

use vstd::prelude::*;

verus! {

/// The phase of a pointer event: motion, button press, or button release.
#[derive(Clone, Copy, Debug, PartialEq, Eq, Structural)]
pub enum Phase {
    Move,
    Down,
    Up,
}

/// The button-state label a press or release record carries. The host maps
/// each to its characters, given by [`ButtonState::label`].
#[derive(Clone, Copy, Debug, PartialEq, Eq, Structural)]
pub enum ButtonState {
    /// A button was pressed: "down".
    Down,
    /// A button was released: "up".
    Up,
}

/// One pointer event as the host input system delivers it: the raw screen
/// coordinates and the phase.
#[derive(Clone, Copy, Debug, PartialEq, Eq, Structural)]
pub struct PointerEvent {
    pub phase: Phase,
    pub x: i32,
    pub y: i32,
}

/// One record for the log sink: a move emits the two coordinates; a press
/// or release emits a state label and the two coordinates.
#[derive(Clone, Copy, Debug, PartialEq, Eq, Structural)]
pub enum LogRecord {
    /// The two-value record of a move.
    Coords { x: i32, y: i32 },
    /// The three-value record of a press or release.
    Labeled { state: ButtonState, x: i32, y: i32 },
}

impl ButtonState {
    /// The characters of this state's label.
    pub open spec fn label_spec(self) -> Seq<char> {
        match self {
            ButtonState::Down => "down"@,
            ButtonState::Up => "up"@,
        }
    }

    /// The label the host hands to the log sink for this state.
    pub fn label(&self) -> (r: &'static str)
        ensures
            r@ == self.label_spec(),
    {
        match self {
            ButtonState::Down => "down",
            ButtonState::Up => "up",
        }
    }
}

/// The record a pointer event produces: its coordinates unchanged, and for
/// a press or release the matching state label.
pub open spec fn record_of(e: PointerEvent) -> LogRecord {
    match e.phase {
        Phase::Move => LogRecord::Coords { x: e.x, y: e.y },
        Phase::Down => LogRecord::Labeled { state: ButtonState::Down, x: e.x, y: e.y },
        Phase::Up => LogRecord::Labeled { state: ButtonState::Up, x: e.x, y: e.y },
    }
}

/// Turn one pointer event into the one record the log sink receives.
pub fn forward(e: PointerEvent) -> (r: LogRecord)
    ensures
        r == record_of(e),
{
    match e.phase {
        Phase::Move => LogRecord::Coords { x: e.x, y: e.y },
        Phase::Down => LogRecord::Labeled { state: ButtonState::Down, x: e.x, y: e.y },
        Phase::Up => LogRecord::Labeled { state: ButtonState::Up, x: e.x, y: e.y },
    }
}

/// Turn a run of pointer events into log records: one record per event, in
/// dispatch order, with none coalesced and none dropped.
pub fn forward_all(events: &Vec<PointerEvent>) -> (records: Vec<LogRecord>)
    ensures
        records@.len() == events@.len(),
        forall|i: int| 0 <= i < events@.len() ==> records@[i] == record_of(events@[i]),
{
    let mut records: Vec<LogRecord> = Vec::new();
    let mut k: usize = 0;
    while k < events.len()
        invariant
            k <= events@.len(),
            records@.len() == k,
            forall|i: int| 0 <= i < k ==> records@[i] == record_of(events@[i]),
        decreases events@.len() - k,
    {
        records.push(forward(events[k]));
        k = k + 1;
    }
    records
}

} // verus!
