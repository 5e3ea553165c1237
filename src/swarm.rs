//! The set of flying particles and the per-tick pass that turns struck
//! particles into voxels.

use vstd::prelude::*;
use crate::material::material_of;
use crate::voxel::{cell_above, Particle, VoxelCoord, VoxelWrite};

verus! {

/// What the voxel world's ray query reported for one particle this tick.
#[derive(Clone, Copy, Debug, PartialEq, Eq, Structural)]
pub struct RayHit {
    /// The grid cell holding the hit point (the floor of each coordinate).
    pub cell: VoxelCoord,
    /// Whether the hit lies within the tunneling guard's reach of the
    /// particle: hit distance at most the guard factor times this tick's
    /// travel length.
    pub within_reach: bool,
}

/// A particle together with the id that names it for its whole life.
#[derive(Clone, Copy, Debug, PartialEq, Eq, Structural)]
pub struct TrackedParticle {
    pub id: u64,
    pub particle: Particle,
}

/// The terminal event of a particle: it is removed and `write` is applied.
#[derive(Clone, Copy, Debug, PartialEq, Eq, Structural)]
pub struct Solidification {
    pub id: u64,
    pub write: VoxelWrite,
}

/// A hit is accepted when there is one and the tunneling guard keeps it.
pub open spec fn accepted(hit: Option<RayHit>) -> bool {
    match hit {
        Some(h) => h.within_reach,
        None => false,
    }
}

/// A hit that, if accepted, leaves a grid cell above the struck one.
pub open spec fn placeable(hit: Option<RayHit>) -> bool {
    accepted(hit) ==> hit->0.cell.y < i32::MAX
}

/// The solidification of particle `p` on the accepted hit `h`: a voxel of
/// its material in the cell above the struck one.
pub open spec fn solidification_of(p: TrackedParticle, h: RayHit) -> Solidification {
    Solidification {
        id: p.id,
        write: VoxelWrite {
            coord: cell_above(h.cell),
            material: material_of(p.particle.tile_type),
        },
    }
}

/// The particles among the first `n` whose hit is not accepted, in order.
pub open spec fn survivors(ps: Seq<TrackedParticle>, hs: Seq<Option<RayHit>>, n: nat) -> Seq<
    TrackedParticle,
>
    decreases n,
{
    if n == 0 {
        seq![]
    } else {
        let prev = survivors(ps, hs, (n - 1) as nat);
        if accepted(hs[n - 1]) {
            prev
        } else {
            prev.push(ps[n - 1])
        }
    }
}

/// The solidifications of the first `n` particles, in order.
pub open spec fn solidifications(ps: Seq<TrackedParticle>, hs: Seq<Option<RayHit>>, n: nat) -> Seq<
    Solidification,
>
    decreases n,
{
    if n == 0 {
        seq![]
    } else {
        let prev = solidifications(ps, hs, (n - 1) as nat);
        if accepted(hs[n - 1]) {
            prev.push(solidification_of(ps[n - 1], hs[n - 1]->0))
        } else {
            prev
        }
    }
}

/// Decides the fate of one particle from this tick's ray query: it solidifies
/// exactly when a hit exists and the guard accepts it.
pub fn solidify(p: &TrackedParticle, hit: Option<RayHit>) -> (r: Option<Solidification>)
    requires
        placeable(hit),
    ensures
        r.is_some() <==> accepted(hit),
        accepted(hit) ==> r == Some(solidification_of(*p, hit->0)),
{
    match hit {
        Some(h) => {
            if h.within_reach {
                let coord = h.cell.above();
                Some(
                    Solidification {
                        id: p.id,
                        write: VoxelWrite { coord, material: p.particle.tile_type.material_id() },
                    },
                )
            } else {
                None
            }
        },
        None => None,
    }
}

/// The flying particles, each with a distinct id. Ids are handed out in
/// increasing order and never reused; `retired` remembers every id that has
/// solidified.
pub struct Swarm {
    particles: Vec<TrackedParticle>,
    next_id: u64,
    retired: Ghost<Set<u64>>,
}

impl View for Swarm {
    type V = Seq<TrackedParticle>;

    closed spec fn view(&self) -> Seq<TrackedParticle> {
        self.particles@
    }
}

impl Swarm {
    /// The id the next spawned particle gets.
    pub closed spec fn next_id_spec(&self) -> u64 {
        self.next_id
    }

    /// The ids of all particles that have solidified so far.
    pub closed spec fn retired(&self) -> Set<u64> {
        self.retired@
    }

    pub closed spec fn wf(&self) -> bool {
        &&& forall|i: int, j: int|
            0 <= i < j < self.particles@.len() ==> #[trigger] self.particles@[i].id
                != #[trigger] self.particles@[j].id
        &&& forall|i: int|
            0 <= i < self.particles@.len() ==> #[trigger] self.particles@[i].id < self.next_id
        &&& forall|i: int|
            0 <= i < self.particles@.len() ==> !self.retired@.contains(
                #[trigger] self.particles@[i].id,
            )
        &&& forall|id: u64| #[trigger] self.retired@.contains(id) ==> id < self.next_id
    }

    /// An empty swarm.
    pub fn new() -> (r: Swarm)
        ensures
            r.wf(),
            r@ == Seq::<TrackedParticle>::empty(),
            r.retired() == Set::<u64>::empty(),
            r.next_id_spec() == 0,
    {
        Swarm { particles: Vec::new(), next_id: 0, retired: Ghost(Set::empty()) }
    }

    /// Number of flying particles.
    pub fn len(&self) -> (r: usize)
        ensures
            r == self@.len(),
    {
        self.particles.len()
    }

    /// The flying particles, in the order they were spawned.
    pub fn particles(&self) -> (r: &Vec<TrackedParticle>)
        ensures
            r@ == self@,
    {
        &self.particles
    }

    /// Adds a particle under a fresh id; `None` once every id has been used.
    pub fn spawn(&mut self, particle: Particle) -> (r: Option<u64>)
        requires
            old(self).wf(),
        ensures
            final(self).wf(),
            final(self).retired() == old(self).retired(),
            r.is_none() <==> old(self).next_id_spec() == u64::MAX,
            r.is_none() ==> final(self)@ == old(self)@ && final(self).next_id_spec()
                == old(self).next_id_spec(),
            r.is_some() ==> {
                &&& r->0 == old(self).next_id_spec()
                &&& final(self).next_id_spec() == old(self).next_id_spec() + 1
                &&& final(self)@ == old(self)@.push(TrackedParticle { id: r->0, particle })
            },
    {
        if self.next_id == u64::MAX {
            return None;
        }
        let id = self.next_id;
        self.particles.push(TrackedParticle { id, particle });
        self.next_id = id + 1;
        Some(id)
    }

    /// One tick of collision resolution. `hits[i]` is the ray query's answer
    /// for the `i`-th particle. Every particle whose hit is accepted is
    /// removed and its solidification returned, in particle order; the others
    /// stay, in order, untouched. When two particles strike the same cell,
    /// applying the writes in the returned order lets the later one decide
    /// the cell's material.
    pub fn resolve(&mut self, hits: &Vec<Option<RayHit>>) -> (r: Vec<Solidification>)
        requires
            old(self).wf(),
            hits@.len() == old(self)@.len(),
            forall|i: int| 0 <= i < hits@.len() ==> placeable(#[trigger] hits@[i]),
        ensures
            final(self).wf(),
            final(self).next_id_spec() == old(self).next_id_spec(),
            final(self)@ == survivors(old(self)@, hits@, hits@.len()),
            r@ == solidifications(old(self)@, hits@, hits@.len()),
            forall|k: int|
                0 <= k < r@.len() ==> !old(self).retired().contains(#[trigger] r@[k].id) && exists|
                    j: int,
                | 0 <= j < old(self)@.len() && old(self)@[j].id == r@[k].id,
            forall|id: u64|
                #[trigger] final(self).retired().contains(id) <==> (old(self).retired().contains(
                    id,
                ) || exists|k: int| 0 <= k < r@.len() && r@[k].id == id),
    {
        let ghost ps = self.particles@;
        let ghost hs = hits@;
        let mut kept: Vec<TrackedParticle> = Vec::new();
        let mut out: Vec<Solidification> = Vec::new();
        let ghost mut retired = self.retired@;
        let n = self.particles.len();
        let mut i: usize = 0;
        while i < n
            invariant
                ps == self.particles@,
                hs == hits@,
                n == ps.len(),
                hs.len() == n,
                i <= n,
                self.wf(),
                forall|j: int| 0 <= j < hs.len() ==> placeable(#[trigger] hs[j]),
                kept@ == survivors(ps, hs, i as nat),
                out@ == solidifications(ps, hs, i as nat),
                forall|k: int|
                    0 <= k < kept@.len() ==> exists|j: int|
                        0 <= j < i && #[trigger] kept@[k] == ps[j] && !accepted(hs[j]),
                forall|k: int|
                    0 <= k < out@.len() ==> exists|j: int|
                        0 <= j < i && (#[trigger] out@[k]).id == ps[j].id && accepted(hs[j]),
                forall|k: int| 0 <= k < out@.len() ==> !self.retired@.contains(#[trigger] out@[k].id),
                forall|a: int, b: int|
                    0 <= a < b < kept@.len() ==> #[trigger] kept@[a].id != #[trigger] kept@[b].id,
                forall|id: u64|
                    #[trigger] retired.contains(id) <==> (self.retired@.contains(id) || exists|
                        k: int,
                    | 0 <= k < out@.len() && out@[k].id == id),
            decreases n - i,
        {
            let p = self.particles[i];
            let hit = hits[i];
            let ghost prev_out = out@;
            let ghost prev_retired = retired;
            match solidify(&p, hit) {
                Some(s) => {
                    out.push(s);
                    proof {
                        retired = retired.insert(s.id);
                        assert forall|k: int| 0 <= k < out@.len() implies exists|j: int|
                            0 <= j < i + 1 && (#[trigger] out@[k]).id == ps[j].id && accepted(
                                hs[j],
                            ) by {
                            if k < prev_out.len() {
                                assert(out@[k] == prev_out[k]);
                            } else {
                                assert(out@[k].id == ps[i as int].id);
                            }
                        }
                        assert forall|id: u64| #[trigger]
                            retired.contains(id) <==> (self.retired@.contains(id) || exists|
                                k: int,
                            | 0 <= k < out@.len() && out@[k].id == id) by {
                            if prev_retired.contains(id) && !self.retired@.contains(id) {
                                let k = choose|k: int| 0 <= k < prev_out.len() && prev_out[k].id == id;
                                assert(out@[k] == prev_out[k]);
                            }
                            if exists|k: int| 0 <= k < out@.len() && out@[k].id == id {
                                let k = choose|k: int| 0 <= k < out@.len() && out@[k].id == id;
                                if k < prev_out.len() {
                                    assert(out@[k] == prev_out[k]);
                                    assert(prev_retired.contains(id));
                                }
                            }
                            if id == s.id {
                                assert(out@[out@.len() - 1].id == id);
                            }
                        }
                    }
                },
                None => {
                    kept.push(p);
                },
            }
            i += 1;
        }
        self.particles = kept;
        self.retired = Ghost(retired);
        out
    }
}

/// A particle solidifies at most once: once its id is retired, no later
/// state of the swarm holds it, so no later tick can resolve it again.
/// (`spawn` and `resolve` only ever grow the retired set, and `resolve` only
/// returns ids that were not retired before the call.)
pub proof fn lemma_retired_never_flies(s: &Swarm, id: u64)
    requires
        s.wf(),
        s.retired().contains(id),
    ensures
        forall|i: int| 0 <= i < s@.len() ==> #[trigger] s@[i].id != id,
{
}

/// The resolve pass loses no particle and duplicates none: of the first `n`
/// particles, each either survives or solidifies.
pub proof fn lemma_resolve_partitions(ps: Seq<TrackedParticle>, hs: Seq<Option<RayHit>>, n: nat)
    requires
        n <= ps.len(),
        n <= hs.len(),
    ensures
        survivors(ps, hs, n).len() + solidifications(ps, hs, n).len() == n,
    decreases n,
{
    if n > 0 {
        lemma_resolve_partitions(ps, hs, (n - 1) as nat);
    }
}

} // verus!
