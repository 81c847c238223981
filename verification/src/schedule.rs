//! One generation episode: the spawn phase enumerates chunk coordinates in a
//! square spiral outward from the origin and records one pending chunk per
//! coordinate, and the integration phase consumes poll outcomes, attaching a
//! finished texture to its chunk exactly once and discarding results whose
//! chunk is gone. The episode itself never blocks: the surrounding
//! application owns the job handles, polls them, and reports what it saw.

use vstd::prelude::*;
use crate::config::MAX_SPAWN_RADIUS;
use crate::grid::ChunkCoord;
use crate::synth::PixelBuffer;

verus! {

/// Chebyshev distance of a chunk coordinate from the origin.
pub open spec fn cheby(c: ChunkCoord) -> int {
    let ax = if c.x >= 0 {
        c.x as int
    } else {
        -(c.x as int)
    };
    let ay = if c.y >= 0 {
        c.y as int
    } else {
        -(c.y as int)
    };
    if ax >= ay {
        ax
    } else {
        ay
    }
}

/// Relies on spiral's `ChebyshevIterator` centred on the origin: it yields
/// every coordinate of Chebyshev distance below `radius`, each exactly once,
/// ring by ring outward with the origin first, and then stops.
#[verifier::external_body]
fn spiral_coords(radius: i32) -> (v: Vec<ChunkCoord>)
    requires
        1 <= radius <= MAX_SPAWN_RADIUS,
    ensures
        v@.len() == (2 * radius - 1) * (2 * radius - 1),
        forall|i: int| 0 <= i < v@.len() ==> cheby(#[trigger] v@[i]) < radius,
        forall|c: ChunkCoord| cheby(c) < radius ==> v@.contains(c),
        forall|i: int, j: int| 0 <= i < j < v@.len() ==> #[trigger] v@[i] != #[trigger] v@[j],
        forall|i: int, j: int|
            0 <= i <= j < v@.len() ==> cheby(#[trigger] v@[i]) <= cheby(#[trigger] v@[j]),
        v@[0] == (ChunkCoord { x: 0, y: 0 }),
{
    spiral::ChebyshevIterator::new(0i32, 0i32, radius).map(|(x, y)| ChunkCoord { x, y }).collect()
}

/// The world-start trigger: the spawn phase fires on the tick whose frame
/// count reaches the configured warm-up delay, and on no other tick. The
/// delay only lets the surrounding application settle first; one fixed value
/// works as well as any.
pub fn should_start(frame_count: u32, start_delay: u32) -> (r: bool)
    ensures
        r == (frame_count == start_delay),
{
    frame_count == start_delay
}

/// The lifecycle phase of one chunk: its texture is either still being
/// computed or already attached.
#[derive(Clone, Copy, Debug, PartialEq, Eq, Structural)]
pub enum ChunkPhase {
    /// A generation job is in flight; no texture yet.
    Pending,
    /// The texture was attached; the chunk is done.
    Ready,
}

/// One chunk the episode knows of: its coordinate and its phase.
#[derive(Clone, Copy, Debug, PartialEq, Eq, Structural)]
pub struct ChunkSlot {
    pub coord: ChunkCoord,
    pub phase: ChunkPhase,
}

/// What the application saw when it polled one chunk's job handle.
pub enum PollOutcome {
    /// The job has not finished; nothing to do this tick.
    NotReady,
    /// The job finished and handed over this buffer.
    Finished(PixelBuffer),
}

/// What the application must do after reporting a poll outcome.
pub enum IntegrationAction {
    /// Leave the chunk as it is and poll again next tick.
    Wait,
    /// Attach this buffer to the chunk as its texture and drop the handle.
    Attach(PixelBuffer),
    /// Throw the outcome away; no chunk wants it.
    Discard,
}

/// One world-generation episode: which chunks exist, at which coordinate,
/// and how far along each is. At most one chunk per coordinate, ever.
pub struct Episode {
    started: bool,
    chunks: Vec<ChunkSlot>,
}

impl Episode {
    /// Whether the spawn phase has already run.
    pub closed spec fn spec_started(self) -> bool {
        self.started
    }

    /// The chunks of this episode, in spawn order.
    pub closed spec fn slots(self) -> Seq<ChunkSlot> {
        self.chunks@
    }

    /// Whether some chunk of this episode sits at `c`.
    pub open spec fn contains_coord(self, c: ChunkCoord) -> bool {
        exists|i: int| 0 <= i < self.slots().len() && (#[trigger] self.slots()[i]).coord == c
    }

    /// The episode's invariant: no two chunks share a coordinate, and before
    /// the spawn phase there are no chunks at all.
    pub open spec fn wf(self) -> bool {
        &&& forall|i: int, j: int|
            0 <= i < j < self.slots().len() ==> (#[trigger] self.slots()[i]).coord != (
            #[trigger] self.slots()[j]).coord
        &&& !self.spec_started() ==> self.slots().len() == 0
    }

    /// A fresh episode: nothing spawned, nothing pending.
    pub fn new() -> (e: Episode)
        ensures
            e.wf(),
            !e.spec_started(),
            e.slots().len() == 0,
    {
        Episode { started: false, chunks: Vec::new() }
    }

    /// The spawn phase. On its first invocation it enumerates every chunk
    /// coordinate of Chebyshev distance below `radius` in a square spiral
    /// outward from the origin, records a pending chunk for each, and
    /// returns the coordinates in spawn order, so the caller can create one
    /// placeholder entity and dispatch one synthesis job per coordinate. A
    /// repeated invocation in the same episode spawns nothing: no coordinate
    /// is ever generated twice.
    pub fn start_generation(&mut self, radius: i32) -> (spawned: Vec<ChunkCoord>)
        requires
            old(self).wf(),
            1 <= radius <= MAX_SPAWN_RADIUS,
        ensures
            final(self).wf(),
            final(self).spec_started(),
            old(self).spec_started() ==> *final(self) == *old(self) && spawned@.len() == 0,
            !old(self).spec_started() ==> {
                &&& spawned@.len() == (2 * radius - 1) * (2 * radius - 1)
                &&& forall|i: int| 0 <= i < spawned@.len() ==> cheby(#[trigger] spawned@[i]) < radius
                &&& forall|c: ChunkCoord| cheby(c) < radius ==> spawned@.contains(c)
                &&& forall|i: int, j: int|
                    0 <= i < j < spawned@.len() ==> #[trigger] spawned@[i] != #[trigger] spawned@[j]
                &&& forall|i: int, j: int|
                    0 <= i <= j < spawned@.len() ==> cheby(#[trigger] spawned@[i]) <= cheby(
                        #[trigger] spawned@[j],
                    )
                &&& spawned@[0] == (ChunkCoord { x: 0, y: 0 })
                &&& final(self).slots().len() == spawned@.len()
                &&& forall|i: int|
                    0 <= i < spawned@.len() ==> #[trigger] final(self).slots()[i] == (ChunkSlot {
                        coord: spawned@[i],
                        phase: ChunkPhase::Pending,
                    })
            },
    {
        if self.started {
            return Vec::new();
        }
        self.started = true;
        let coords = spiral_coords(radius);
        let mut i: usize = 0;
        while i < coords.len()
            invariant
                i <= coords@.len(),
                self.chunks@.len() == i,
                forall|k: int, l: int|
                    0 <= k < l < coords@.len() ==> #[trigger] coords@[k] != #[trigger] coords@[l],
                forall|k: int|
                    0 <= k < i ==> #[trigger] self.chunks@[k] == (ChunkSlot {
                        coord: coords@[k],
                        phase: ChunkPhase::Pending,
                    }),
                self.started,
            decreases coords@.len() - i,
        {
            self.chunks.push(ChunkSlot { coord: coords[i], phase: ChunkPhase::Pending });
            i = i + 1;
        }
        coords
    }

    /// The coordinates of the chunks still pending, in spawn order: the set
    /// the integration phase should poll this tick.
    pub fn pending_coords(&self) -> (v: Vec<ChunkCoord>)
        ensures
            v@ == spec_pending(self.slots()),
    {
        let mut v: Vec<ChunkCoord> = Vec::new();
        let mut i: usize = 0;
        while i < self.chunks.len()
            invariant
                i <= self.chunks@.len(),
                v@ == spec_pending(self.chunks@.subrange(0, i as int)),
            decreases self.chunks@.len() - i,
        {
            let ghost prefix = self.chunks@.subrange(0, i as int);
            let slot = self.chunks[i];
            if matches!(slot.phase, ChunkPhase::Pending) {
                v.push(slot.coord);
            }
            i = i + 1;
            proof {
                let longer = self.chunks@.subrange(0, i as int);
                assert(longer.drop_last() =~= prefix);
            }
        }
        proof {
            assert(self.chunks@.subrange(0, self.chunks@.len() as int) =~= self.chunks@);
        }
        v
    }

    /// The integration step for one chunk and one tick. The outcome the
    /// application observed decides everything: a job that is not done
    /// changes nothing — the chunk stays pending and is polled again next
    /// tick, the caller never waits. A finished buffer is attached to its
    /// chunk exactly once, moving it to ready; a buffer whose chunk is gone,
    /// or was already made ready, is discarded — never attached, never
    /// resurrecting a chunk.
    pub fn on_poll(&mut self, coord: ChunkCoord, outcome: PollOutcome) -> (act: IntegrationAction)
        requires
            old(self).wf(),
        ensures
            final(self).wf(),
            final(self).spec_started() == old(self).spec_started(),
            outcome is NotReady ==> *final(self) == *old(self) && act is Wait,
            outcome matches PollOutcome::Finished(buf) ==> if !old(self).contains_coord(coord) {
                *final(self) == *old(self) && act is Discard
            } else {
                exists|i: int|
                    {
                        &&& 0 <= i < old(self).slots().len()
                        &&& (#[trigger] old(self).slots()[i]).coord == coord
                        &&& if old(self).slots()[i].phase is Pending {
                            final(self).slots() == old(self).slots().update(
                                i,
                                ChunkSlot { coord, phase: ChunkPhase::Ready },
                            ) && act == IntegrationAction::Attach(buf)
                        } else {
                            *final(self) == *old(self) && act is Discard
                        }
                    }
            },
    {
        match outcome {
            PollOutcome::NotReady => IntegrationAction::Wait,
            PollOutcome::Finished(buf) => match self.find_slot(coord) {
                None => IntegrationAction::Discard,
                Some(i) => {
                    proof {
                        assert(old(self).slots()[i as int].coord == coord);
                        assert(old(self).contains_coord(coord));
                    }
                    if matches!(self.chunks[i].phase, ChunkPhase::Pending) {
                        self.chunks.set(i, ChunkSlot { coord, phase: ChunkPhase::Ready });
                        proof {
                            assert forall|k: int, l: int|
                                0 <= k < l < self.chunks@.len() implies (
                            #[trigger] self.chunks@[k]).coord != (
                            #[trigger] self.chunks@[l]).coord by {
                                assert(old(self).slots()[k].coord != old(self).slots()[l].coord);
                            }
                        }
                        IntegrationAction::Attach(buf)
                    } else {
                        IntegrationAction::Discard
                    }
                },
            },
        }
    }

    /// The position of the chunk at `coord`, if the episode has one.
    fn find_slot(&self, coord: ChunkCoord) -> (r: Option<usize>)
        ensures
            r matches Some(i) ==> i < self.slots().len() && self.slots()[i as int].coord == coord,
            r is None ==> !self.contains_coord(coord),
    {
        let mut i: usize = 0;
        while i < self.chunks.len()
            invariant
                i <= self.chunks@.len(),
                forall|k: int| 0 <= k < i ==> (#[trigger] self.chunks@[k]).coord != coord,
            decreases self.chunks@.len() - i,
        {
            if self.chunks[i].coord == coord {
                return Some(i);
            }
            i = i + 1;
        }
        None
    }

    /// Removes the chunk at `coord`, modelling its entity being despawned
    /// while its job may still be in flight. Afterwards no chunk sits at
    /// `coord`, so a late result for it is discarded by `on_poll`.
    pub fn destroy(&mut self, coord: ChunkCoord) -> (removed: bool)
        requires
            old(self).wf(),
        ensures
            final(self).wf(),
            final(self).spec_started() == old(self).spec_started(),
            removed == old(self).contains_coord(coord),
            !final(self).contains_coord(coord),
            !removed ==> *final(self) == *old(self),
            removed ==> exists|i: int|
                {
                    &&& 0 <= i < old(self).slots().len()
                    &&& (#[trigger] old(self).slots()[i]).coord == coord
                    &&& final(self).slots() == old(self).slots().remove(i)
                },
    {
        let mut i: usize = 0;
        while i < self.chunks.len()
            invariant
                *self == *old(self),
                old(self).wf(),
                i <= self.chunks@.len(),
                forall|k: int| 0 <= k < i ==> (#[trigger] self.chunks@[k]).coord != coord,
            decreases self.chunks@.len() - i,
        {
            if self.chunks[i].coord == coord {
                proof {
                    assert(old(self).slots()[i as int].coord == coord);
                    assert(old(self).contains_coord(coord));
                }
                self.chunks.remove(i);
                proof {
                    let s = old(self).slots();
                    assert forall|k: int, l: int|
                        0 <= k < l < self.chunks@.len() implies (#[trigger] self.chunks@[k]).coord
                        != (#[trigger] self.chunks@[l]).coord by {
                        let k0 = if k < i as int {
                            k
                        } else {
                            k + 1
                        };
                        let l0 = if l < i as int {
                            l
                        } else {
                            l + 1
                        };
                        assert(self.chunks@[k] == s[k0] && self.chunks@[l] == s[l0]);
                        assert(s[k0].coord != s[l0].coord);
                    }
                    assert forall|k: int|
                        0 <= k < self.chunks@.len() implies (#[trigger] self.chunks@[k]).coord
                        != coord by {
                        let k0 = if k < i as int {
                            k
                        } else {
                            k + 1
                        };
                        assert(self.chunks@[k] == s[k0]);
                        if k0 != i as int {
                            assert(s[k0].coord != s[i as int].coord);
                        }
                    }
                }
                return true;
            }
            i = i + 1;
        }
        false
    }
}

/// The coordinates of the pending slots of `s`, in order.
pub open spec fn spec_pending(s: Seq<ChunkSlot>) -> Seq<ChunkCoord>
    decreases s.len(),
{
    if s.len() == 0 {
        Seq::empty()
    } else {
        spec_pending(s.drop_last()) + if s.last().phase is Pending {
            seq![s.last().coord]
        } else {
            Seq::empty()
        }
    }
}

} // verus!
