//! Pointer events and the path-builder capability interface, which turns
//! discrete pointer samples into emitted path segments.

use vstd::prelude::*;

use crate::penpath::{Element, Segment};

verus! {

/// A pointer event, carrying the sampled element where it has one.
/// Timestamps travel beside the event as a separate argument.
#[derive(Clone, Copy, PartialEq, Eq, Structural, Debug)]
pub enum PenEvent {
    Down { element: Element },
    Move { element: Element },
    Up { element: Element },
    Cancel,
}

pub open spec fn event_in_range(e: PenEvent) -> bool {
    match e {
        PenEvent::Down { element } => element.in_range(),
        PenEvent::Move { element } => element.in_range(),
        PenEvent::Up { element } => element.in_range(),
        PenEvent::Cancel => true,
    }
}

/// Whether an event should keep travelling to other consumers after this
/// tool saw it.
#[derive(Clone, Copy, PartialEq, Eq, Structural, Debug)]
pub enum EventPropagation {
    Proceed,
    Stop,
}

/// Where the tool stands after an event.
#[derive(Clone, Copy, PartialEq, Eq, Structural, Debug)]
pub enum PenProgress {
    Idle,
    InProgress,
    Finished,
}

/// The outcome of handing an event to a consumer, together with what the
/// consumer reports as its progress.
#[derive(Clone, Debug)]
pub struct EventResult<P> {
    pub handled: bool,
    pub propagate: EventPropagation,
    pub progress: P,
}

/// Constraints a builder may honor when constructing geometry (for instance
/// snapping). The simple polyline builder ignores them.
#[derive(Clone, Copy, PartialEq, Eq, Structural, Debug)]
pub struct Constraints {
    pub enabled: bool,
}

impl Default for Constraints {
    fn default() -> (r: Self)
        ensures
            r == (Constraints { enabled: false }),
    {
        Constraints { enabled: false }
    }
}

/// What a builder reports for one event: no new geometry yet, newly emitted
/// segments with drawing continuing, or newly emitted segments with drawing
/// finished.
#[derive(Clone, Debug)]
pub enum BuilderProgress {
    InProgress,
    EmitContinue(Vec<Segment>),
    Finished(Vec<Segment>),
}

/// The capability interface a path builder offers the tool: consume one
/// event, emit zero or more segments for the caller to append. A builder
/// owns no reference to the stroke being built.
///
/// The specification functions pin each implementation's observable behavior,
/// so the tool's own contract stays exact over any builder. Every builder
/// must keep emitted segments inside the accepted coordinate range, must not
/// finish on `Down` or `Move`, and must finish with at least one emitted
/// segment on `Up` — the guarantees the tool needs to leave a finished
/// stroke non-degenerate.
pub trait Buildable: Sized {
    spec fn wf(&self) -> bool;

    /// The builder value `start` returns.
    spec fn started(element: Element, now: u64) -> Self;

    /// The builder's state after consuming an event.
    spec fn after(&self, event: PenEvent, now: u64) -> Self;

    /// The segments the builder emits for an event.
    spec fn emitted(&self, event: PenEvent, now: u64) -> Seq<Segment>;

    /// Whether the builder emits at all for an event (`EmitContinue` or
    /// `Finished`, as opposed to `InProgress`).
    spec fn emits(&self, event: PenEvent, now: u64) -> bool;

    /// Whether the builder finishes on an event.
    spec fn finishes(&self, event: PenEvent, now: u64) -> bool;

    /// Whether the builder reports the event handled.
    spec fn reports_handled(&self, event: PenEvent, now: u64) -> bool;

    /// How the builder lets the event propagate.
    spec fn reports_propagation(&self, event: PenEvent, now: u64) -> EventPropagation;

    /// Start a new building session anchored at `element`.
    fn start(element: Element, now: u64) -> (b: Self)
        requires
            element.in_range(),
        ensures
            b == Self::started(element, now),
            b.wf(),
    ;

    /// Consume one event, possibly emitting segments.
    fn handle_event(&mut self, event: PenEvent, now: u64, constraints: Constraints) -> (r:
        EventResult<BuilderProgress>)
        requires
            old(self).wf(),
            event_in_range(event),
        ensures
            *final(self) == old(self).after(event, now),
            final(self).wf(),
            r.handled == old(self).reports_handled(event, now),
            r.propagate == old(self).reports_propagation(event, now),
            (match r.progress {
                BuilderProgress::InProgress => !old(self).emits(event, now),
                BuilderProgress::EmitContinue(segs) => old(self).emits(event, now) && !old(
                    self,
                ).finishes(event, now) && segs@ == old(self).emitted(event, now),
                BuilderProgress::Finished(segs) => old(self).emits(event, now) && old(
                    self,
                ).finishes(event, now) && segs@ == old(self).emitted(event, now),
            }),
            forall|i: int| 0 <= i < old(self).emitted(event, now).len() ==> (#[trigger] old(
                self,
            ).emitted(event, now)[i]).in_range(),
            event matches PenEvent::Up { element } ==> old(self).finishes(event, now) && old(
                self,
            ).emits(event, now) && old(self).emitted(event, now).len() >= 1,
            (event matches PenEvent::Down { element } || event matches PenEvent::Move {
                element,
            }) ==> !old(self).finishes(event, now),
    ;
}

/// The simplest builder: uniform-width polyline construction, insensitive to
/// pressure and velocity. Every `Down`, `Move` or `Up` sample becomes one
/// line segment to that sample — so a repeated `Down` while a session is
/// already running extends the current stroke like a `Move` would; it never
/// starts a new stroke.
#[derive(Clone, Copy, PartialEq, Eq, Structural, Debug)]
pub struct PenPathSimpleBuilder {
    /// The element the session was anchored at.
    pub start: Element,
}

impl Buildable for PenPathSimpleBuilder {
    open spec fn wf(&self) -> bool {
        self.start.in_range()
    }

    open spec fn started(element: Element, now: u64) -> Self {
        PenPathSimpleBuilder { start: element }
    }

    open spec fn after(&self, event: PenEvent, now: u64) -> Self {
        *self
    }

    open spec fn emitted(&self, event: PenEvent, now: u64) -> Seq<Segment> {
        match event {
            PenEvent::Down { element } => seq![Segment::LineTo { end: element }],
            PenEvent::Move { element } => seq![Segment::LineTo { end: element }],
            PenEvent::Up { element } => seq![Segment::LineTo { end: element }],
            PenEvent::Cancel => Seq::empty(),
        }
    }

    open spec fn emits(&self, event: PenEvent, now: u64) -> bool {
        true
    }

    open spec fn finishes(&self, event: PenEvent, now: u64) -> bool {
        match event {
            PenEvent::Down { element } => false,
            PenEvent::Move { element } => false,
            PenEvent::Up { element } => true,
            PenEvent::Cancel => true,
        }
    }

    open spec fn reports_handled(&self, event: PenEvent, now: u64) -> bool {
        true
    }

    open spec fn reports_propagation(&self, event: PenEvent, now: u64) -> EventPropagation {
        EventPropagation::Stop
    }

    fn start(element: Element, now: u64) -> (b: Self) {
        PenPathSimpleBuilder { start: element }
    }

    fn handle_event(&mut self, event: PenEvent, now: u64, constraints: Constraints) -> (r:
        EventResult<BuilderProgress>) {
        let progress = match event {
            PenEvent::Down { element } => {
                let mut segs: Vec<Segment> = Vec::new();
                segs.push(Segment::LineTo { end: element });
                proof {
                    assert(segs@ =~= self.emitted(event, now));
                }
                BuilderProgress::EmitContinue(segs)
            },
            PenEvent::Move { element } => {
                let mut segs: Vec<Segment> = Vec::new();
                segs.push(Segment::LineTo { end: element });
                proof {
                    assert(segs@ =~= self.emitted(event, now));
                }
                BuilderProgress::EmitContinue(segs)
            },
            PenEvent::Up { element } => {
                let mut segs: Vec<Segment> = Vec::new();
                segs.push(Segment::LineTo { end: element });
                proof {
                    assert(segs@ =~= self.emitted(event, now));
                }
                BuilderProgress::Finished(segs)
            },
            PenEvent::Cancel => BuilderProgress::Finished(Vec::new()),
        };
        EventResult { handled: true, propagate: EventPropagation::Stop, progress }
    }
}

/// The builder the marker tool selects: markers draw with fixed width, so
/// the pressure-insensitive polyline strategy is the right one.
pub fn new_builder(element: Element, now: u64) -> (b: PenPathSimpleBuilder)
    requires
        element.in_range(),
    ensures
        b == PenPathSimpleBuilder::started(element, now),
        b.wf(),
{
    PenPathSimpleBuilder::start(element, now)
}

} // verus!
