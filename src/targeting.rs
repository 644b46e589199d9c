use vstd::prelude::*;

use crate::fixture::{Angles, MovingHead, pointed, value_in_range};
use crate::geometry::{Offset, SolveError, Vector3, aim, solve};
use crate::target::{Target, TargetView};

verus! {

/// Which channel of a fixture a diagnostic is about.
#[derive(Clone, Copy, Debug, PartialEq, Eq, Structural)]
pub enum ChannelKind {
    Pan,
    Tilt,
}

/// A per-fixture problem found during a tick; none of them aborts the tick.
#[derive(Clone, Copy, Debug, PartialEq, Eq, Structural)]
pub enum Diagnostic {
    /// The target sits on the fixture; its previous angles were kept.
    DegenerateGeometry { fixture: usize },
    /// A computed angle exceeds the channel's maximum; it is still sent.
    OutOfRangeChannel { fixture: usize, channel: ChannelKind },
}

/// What the output sink receives for one fixture.
#[derive(Clone, Copy, Debug, PartialEq, Eq, Structural)]
pub struct ChannelFrame {
    pub fixture: usize,
    pub pan_channel: u8,
    pub pan_value: i64,
    pub tilt_channel: u8,
    pub tilt_value: i64,
}

/// The outcome of one tick: the values for every fixture, delivered together,
/// and the diagnostics gathered on the way.
pub struct TickReport {
    pub frame: Vec<ChannelFrame>,
    pub diagnostics: Vec<Diagnostic>,
}

/// The one authoritative target and the fixed set of fixtures aimed at it.
pub struct World {
    target: Target,
    fixtures: Vec<MovingHead>,
}

/// The abstract state of a world.
pub struct WorldView {
    pub target: TargetView,
    pub fixtures: Seq<MovingHead>,
}

impl View for World {
    type V = WorldView;

    closed spec fn view(&self) -> WorldView {
        WorldView { target: self.target@, fixtures: self.fixtures@ }
    }
}

/// The diagnostics of fixture `i` after it was pointed at `target`.
pub open spec fn fixture_diagnostics(i: int, m: MovingHead, target: Vector3, angles: Angles) -> Seq<Diagnostic> {
    if m.position == target {
        seq![Diagnostic::DegenerateGeometry { fixture: i as usize }]
    } else {
        let n = pointed(m, target, angles);
        let pan = if value_in_range(n.pan) {
            Seq::<Diagnostic>::empty()
        } else {
            seq![Diagnostic::OutOfRangeChannel { fixture: i as usize, channel: ChannelKind::Pan }]
        };
        let tilt = if value_in_range(n.tilt) {
            Seq::<Diagnostic>::empty()
        } else {
            seq![Diagnostic::OutOfRangeChannel { fixture: i as usize, channel: ChannelKind::Tilt }]
        };
        pan + tilt
    }
}

/// The diagnostics of the first `n` fixtures, in fixture order.
pub open spec fn tick_diagnostics(
    fixtures: Seq<MovingHead>,
    target: Vector3,
    angles: Seq<Angles>,
    n: nat,
) -> Seq<Diagnostic>
    decreases n,
{
    if n == 0 {
        Seq::empty()
    } else {
        tick_diagnostics(fixtures, target, angles, (n - 1) as nat) + fixture_diagnostics(
            n - 1,
            fixtures[n - 1],
            target,
            angles[n - 1],
        )
    }
}

/// Every fixture pointed at `target` with its own angles.
pub open spec fn pointed_all(fixtures: Seq<MovingHead>, target: Vector3, angles: Seq<Angles>) -> Seq<MovingHead> {
    Seq::new(fixtures.len(), |i: int| pointed(fixtures[i], target, angles[i]))
}

/// What the sink receives for fixture `i` in state `m`.
pub open spec fn frame_of(i: int, m: MovingHead) -> ChannelFrame {
    ChannelFrame {
        fixture: i as usize,
        pan_channel: m.pan.channel,
        pan_value: m.pan.value,
        tilt_channel: m.tilt.channel,
        tilt_value: m.tilt.value,
    }
}

/// The frame for a whole set of fixtures.
pub open spec fn frames_of(fixtures: Seq<MovingHead>) -> Seq<ChannelFrame> {
    Seq::new(fixtures.len(), |i: int| frame_of(i, fixtures[i]))
}

impl World {
    /// Puts a target and a set of fixtures together.
    pub fn new(target: Target, fixtures: Vec<MovingHead>) -> (r: World)
        ensures
            r@.target == target@,
            r@.target.wf(),
            r@.fixtures == fixtures@,
    {
        proof {
            use_type_invariant(&target);
        }
        World { target, fixtures }
    }

    /// A read-only snapshot of the target.
    pub fn target_position(&self) -> (r: Vector3)
        ensures
            r == self@.target.position,
    {
        self.target.position()
    }

    /// How many fixtures the world holds.
    pub fn fixture_count(&self) -> (r: usize)
        ensures
            r == self@.fixtures.len(),
    {
        self.fixtures.len()
    }

    /// A read-only snapshot of fixture `i`.
    pub fn fixture(&self, i: usize) -> (r: MovingHead)
        requires
            i < self@.fixtures.len(),
        ensures
            r == self@.fixtures[i as int],
    {
        self.fixtures[i]
    }

    /// Applies one input sample to the target; fixtures are untouched.
    pub fn integrate(&mut self, sample: Vector3) -> (r: Vector3)
        ensures
            final(self)@.target == old(self)@.target.step(sample),
            final(self)@.target.wf(),
            final(self)@.fixtures == old(self)@.fixtures,
            r == final(self)@.target.position,
    {
        self.target.integrate(sample)
    }

    /// The direction from every fixture to the current target, in fixture order.
    pub fn aim_directions(&self) -> (r: Vec<Result<Offset, SolveError>>)
        ensures
            r@.len() == self@.fixtures.len(),
            forall|i: int|
                0 <= i < r@.len() ==> r@[i] == aim(self@.fixtures[i].position, self@.target.position),
    {
        let target = self.target.position();
        let mut r: Vec<Result<Offset, SolveError>> = Vec::new();
        let mut i: usize = 0;
        while i < self.fixtures.len()
            invariant
                i <= self.fixtures@.len(),
                target == self@.target.position,
                r@.len() == i,
                forall|j: int| 0 <= j < i ==> r@[j] == aim(self@.fixtures[j].position, target),
            decreases self.fixtures@.len() - i,
        {
            r.push(solve(self.fixtures[i].position, target));
            i = i + 1;
        }
        r
    }

    /// Runs one tick: points every fixture at the current target with the
    /// angles solved for it (`angles[i]` for fixture `i`), and returns the
    /// values of all fixtures together with the diagnostics.
    ///
    /// A fixture the target sits on keeps its previous angles; an angle beyond
    /// its channel's maximum is reported and still written.
    pub fn run_tick(&mut self, angles: &Vec<Angles>) -> (r: TickReport)
        requires
            angles@.len() == old(self)@.fixtures.len(),
        ensures
            final(self)@.target == old(self)@.target,
            final(self)@.fixtures == pointed_all(old(self)@.fixtures, old(self)@.target.position, angles@),
            r.frame@ == frames_of(final(self)@.fixtures),
            r.diagnostics@ == tick_diagnostics(
                old(self)@.fixtures,
                old(self)@.target.position,
                angles@,
                old(self)@.fixtures.len(),
            ),
    {
        let target = self.target.position();
        let ghost before = self.fixtures@;
        let mut diagnostics: Vec<Diagnostic> = Vec::new();
        let mut frame: Vec<ChannelFrame> = Vec::new();
        let mut i: usize = 0;
        while i < self.fixtures.len()
            invariant
                self.fixtures@.len() == before.len(),
                angles@.len() == before.len(),
                i <= before.len(),
                target == self@.target.position,
                self@.target == old(self)@.target,
                before == old(self)@.fixtures,
                forall|j: int| 0 <= j < i ==> self.fixtures@[j] == pointed(before[j], target, angles@[j]),
                forall|j: int| i <= j < before.len() ==> self.fixtures@[j] == before[j],
                frame@ == frames_of(self.fixtures@.take(i as int)),
                diagnostics@ == tick_diagnostics(before, target, angles@, i as nat),
            decreases before.len() - i,
        {
            let mut m = self.fixtures[i];
            let a = angles[i];
            let ghost d0 = diagnostics@;
            match m.point_to(target, a) {
                Err(_) => {
                    diagnostics.push(Diagnostic::DegenerateGeometry { fixture: i });
                },
                Ok(()) => {
                    if !m.pan.in_range() {
                        diagnostics.push(Diagnostic::OutOfRangeChannel { fixture: i, channel: ChannelKind::Pan });
                    }
                    if !m.tilt.in_range() {
                        diagnostics.push(Diagnostic::OutOfRangeChannel { fixture: i, channel: ChannelKind::Tilt });
                    }
                },
            }
            assert(diagnostics@ =~= d0 + fixture_diagnostics(i as int, before[i as int], target, a));
            self.fixtures.set(i, m);
            frame.push(
                ChannelFrame {
                    fixture: i,
                    pan_channel: m.pan.channel,
                    pan_value: m.pan.value,
                    tilt_channel: m.tilt.channel,
                    tilt_value: m.tilt.value,
                },
            );
            assert(self.fixtures@.take(i + 1) =~= self.fixtures@.take(i as int).push(m));
            assert(frame@ =~= frames_of(self.fixtures@.take(i + 1)));
            i = i + 1;
        }
        assert(self.fixtures@ =~= pointed_all(before, target, angles@));
        assert(self.fixtures@.take(i as int) =~= self.fixtures@);
        TickReport { frame, diagnostics }
    }
}

/// A channel whose solved angle exceeds its maximum is reported, and the angle
/// is written all the same; the other channel is written as solved whatever
/// the first one holds, and is reported only when it is out of range itself.
pub proof fn lemma_out_of_range_reported(i: usize, m: MovingHead, target: Vector3, angles: Angles)
    requires
        m.position != target,
    ensures
        pointed(m, target, angles).pan.value == angles.pan,
        pointed(m, target, angles).tilt.value == angles.tilt,
        fixture_diagnostics(i as int, m, target, angles).contains(
            Diagnostic::OutOfRangeChannel { fixture: i, channel: ChannelKind::Pan },
        ) <==> !value_in_range(pointed(m, target, angles).pan),
        fixture_diagnostics(i as int, m, target, angles).contains(
            Diagnostic::OutOfRangeChannel { fixture: i, channel: ChannelKind::Tilt },
        ) <==> !value_in_range(pointed(m, target, angles).tilt),
        !fixture_diagnostics(i as int, m, target, angles).contains(
            Diagnostic::DegenerateGeometry { fixture: i },
        ),
{
    let d = fixture_diagnostics(i as int, m, target, angles);
    let n = pointed(m, target, angles);
    let pan_d = Diagnostic::OutOfRangeChannel { fixture: i, channel: ChannelKind::Pan };
    let tilt_d = Diagnostic::OutOfRangeChannel { fixture: i, channel: ChannelKind::Tilt };
    if !value_in_range(n.pan) {
        assert(d[0] == pan_d);
    }
    if !value_in_range(n.tilt) {
        if value_in_range(n.pan) {
            assert(d[0] == tilt_d);
        } else {
            assert(d[1] == tilt_d);
        }
    }
    assert(forall|k: int| 0 <= k < d.len() ==> d[k] is OutOfRangeChannel);
    assert(forall|k: int| 0 <= k < d.len() && d[k] == pan_d ==> !value_in_range(n.pan));
    assert(forall|k: int| 0 <= k < d.len() && d[k] == tilt_d ==> !value_in_range(n.tilt));
}

/// Fixtures are independent: what one fixture becomes in a tick, and what is
/// sent for it, depends on that fixture, the target and its own angles only,
/// whatever the other fixtures hold.
pub proof fn lemma_fixtures_independent(
    f1: Seq<MovingHead>,
    a1: Seq<Angles>,
    f2: Seq<MovingHead>,
    a2: Seq<Angles>,
    target: Vector3,
    i: int,
)
    requires
        0 <= i < f1.len(),
        0 <= i < f2.len(),
        a1.len() == f1.len(),
        a2.len() == f2.len(),
        f1[i] == f2[i],
        a1[i] == a2[i],
    ensures
        aim(f1[i].position, target) == aim(f2[i].position, target),
        pointed_all(f1, target, a1)[i] == pointed_all(f2, target, a2)[i],
        frames_of(pointed_all(f1, target, a1))[i] == frames_of(pointed_all(f2, target, a2))[i],
        fixture_diagnostics(i, f1[i], target, a1[i]) == fixture_diagnostics(i, f2[i], target, a2[i]),
{
}

/// A tick is a function of the world and the angles alone: two ticks on equal
/// inputs give equal fixtures, frames and diagnostics.
pub proof fn lemma_tick_deterministic(w1: WorldView, a1: Seq<Angles>, w2: WorldView, a2: Seq<Angles>)
    requires
        w1 == w2,
        a1 == a2,
    ensures
        pointed_all(w1.fixtures, w1.target.position, a1) == pointed_all(w2.fixtures, w2.target.position, a2),
        frames_of(pointed_all(w1.fixtures, w1.target.position, a1)) == frames_of(
            pointed_all(w2.fixtures, w2.target.position, a2),
        ),
        tick_diagnostics(w1.fixtures, w1.target.position, a1, w1.fixtures.len()) == tick_diagnostics(
            w2.fixtures,
            w2.target.position,
            a2,
            w2.fixtures.len(),
        ),
{
}

} // verus!
