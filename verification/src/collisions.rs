//! Collisions of transient particles with the wall.
//!
//! The transient particles are taken in their order. Each one is held against
//! the wall particles in their order; the first wall particle that it
//! overlaps takes the collision, and the transient particle is removed.
//! Later wall particles that it overlaps as well are not touched.

use crate::particle::Particle;
use crate::physics::PhysicsSystem;
use crate::scalar::Scalar;
use vstd::prelude::*;

verus! {

/// Whether `f` overlaps some particle of `walls`.
pub open spec fn strikes<S: Scalar>(f: Particle<S>, walls: Seq<Particle<S>>) -> bool {
    exists|j: int| 0 <= j < walls.len() && f.overlaps(#[trigger] walls[j])
}

/// Whether `walls[j]` is the first particle of `walls` that `f` overlaps.
pub open spec fn is_first_struck<S: Scalar>(
    f: Particle<S>,
    walls: Seq<Particle<S>>,
    j: int,
) -> bool {
    &&& 0 <= j < walls.len()
    &&& f.overlaps(walls[j])
    &&& forall|k: int| 0 <= k < j ==> !f.overlaps(#[trigger] walls[k])
}

/// The index of the first particle of `walls` that `f` overlaps, where it
/// overlaps any.
pub open spec fn first_struck<S: Scalar>(f: Particle<S>, walls: Seq<Particle<S>>) -> int {
    choose|j: int| is_first_struck(f, walls, j)
}

/// The wall after the transient particle `f` met it: the first wall particle
/// that `f` overlaps has responded to the collision, with mass `m1` against
/// the mass `m2` of `f`. A wall that `f` does not overlap is as it was.
pub open spec fn struck_by<S: Scalar>(
    walls: Seq<Particle<S>>,
    f: Particle<S>,
    m1: S,
    m2: S,
) -> Seq<Particle<S>> {
    if strikes(f, walls) {
        let j = first_struck(f, walls);
        walls.update(j, walls[j].after_collision(f, m1, m2))
    } else {
        walls
    }
}

/// The wall after each of `forces` met it, one after the other.
pub open spec fn struck_by_all<S: Scalar>(
    walls: Seq<Particle<S>>,
    forces: Seq<Particle<S>>,
    m1: S,
    m2: S,
) -> Seq<Particle<S>>
    decreases forces.len(),
{
    if forces.len() == 0 {
        walls
    } else {
        struck_by(struck_by_all(walls, forces.drop_last(), m1, m2), forces.last(), m1, m2)
    }
}

/// The test that a transient particle passes where it overlaps none of
/// `walls`.
pub open spec fn misses<S: Scalar>(walls: Seq<Particle<S>>) -> spec_fn(Particle<S>) -> bool {
    |f: Particle<S>| !strikes(f, walls)
}

/// Whether `after` holds the particles of `before` with nothing changed but,
/// possibly, their velocities.
pub open spec fn same_but_velocities<S: Scalar>(
    before: Seq<Particle<S>>,
    after: Seq<Particle<S>>,
) -> bool {
    &&& after.len() == before.len()
    &&& forall|k: int|
        0 <= k < before.len() ==> #[trigger] after[k] == (Particle {
            velocity: after[k].velocity,
            ..before[k]
        })
}

/// Where the first overlap lies is settled by the wall and the particle: two
/// indices that both are the first are one.
pub proof fn first_struck_is_unique<S: Scalar>(
    f: Particle<S>,
    walls: Seq<Particle<S>>,
    j: int,
    k: int,
)
    requires
        is_first_struck(f, walls, j),
        is_first_struck(f, walls, k),
    ensures
        j == k,
{
}

/// A particle that overlaps the wall has a first wall particle that it
/// overlaps.
pub proof fn some_overlap_is_first<S: Scalar>(f: Particle<S>, walls: Seq<Particle<S>>)
    requires
        strikes(f, walls),
    ensures
        is_first_struck(f, walls, first_struck(f, walls)),
{
    let j = choose|j: int| 0 <= j < walls.len() && f.overlaps(#[trigger] walls[j]);
    least_overlap(f, walls, j);
}

/// Below an index at which `f` overlaps the wall lies the first such index.
proof fn least_overlap<S: Scalar>(f: Particle<S>, walls: Seq<Particle<S>>, j: int)
    requires
        0 <= j < walls.len(),
        f.overlaps(walls[j]),
    ensures
        exists|i: int| is_first_struck(f, walls, i),
    decreases j,
{
    if exists|k: int| 0 <= k < j && f.overlaps(#[trigger] walls[k]) {
        let k = choose|k: int| 0 <= k < j && f.overlaps(#[trigger] walls[k]);
        least_overlap(f, walls, k);
    } else {
        assert(is_first_struck(f, walls, j));
    }
}

/// One transient particle changes at most one wall particle, the first that
/// it overlaps, and of that one only the velocity.
pub proof fn one_collision_per_particle<S: Scalar>(
    walls: Seq<Particle<S>>,
    f: Particle<S>,
    m1: S,
    m2: S,
)
    ensures
        same_but_velocities(walls, struck_by(walls, f, m1, m2)),
        forall|k: int|
            0 <= k < walls.len() && !is_first_struck(f, walls, k) ==> #[trigger] struck_by(
                walls,
                f,
                m1,
                m2,
            )[k] == walls[k],
        forall|k: int|
            is_first_struck(f, walls, k) ==> #[trigger] struck_by(walls, f, m1, m2)[k]
                == walls[k].after_collision(f, m1, m2),
{
    if strikes(f, walls) {
        some_overlap_is_first(f, walls);
        let j = first_struck(f, walls);
        assert forall|k: int| is_first_struck(f, walls, k) implies k == j by {
            first_struck_is_unique(f, walls, j, k);
        }
    }
}

/// Collisions change velocities of wall particles and nothing else: the wall
/// keeps its particles, their order, their places and their radii.
pub proof fn collisions_change_velocities_only<S: Scalar>(
    walls: Seq<Particle<S>>,
    forces: Seq<Particle<S>>,
    m1: S,
    m2: S,
)
    ensures
        same_but_velocities(walls, struck_by_all(walls, forces, m1, m2)),
    decreases forces.len(),
{
    if forces.len() > 0 {
        let earlier = struck_by_all(walls, forces.drop_last(), m1, m2);
        collisions_change_velocities_only(walls, forces.drop_last(), m1, m2);
        one_collision_per_particle(earlier, forces.last(), m1, m2);
    }
}

/// Whether a particle overlaps the wall does not depend on the velocities in
/// the wall.
pub proof fn overlap_ignores_velocities<S: Scalar>(
    f: Particle<S>,
    before: Seq<Particle<S>>,
    after: Seq<Particle<S>>,
)
    requires
        same_but_velocities(before, after),
    ensures
        strikes(f, before) == strikes(f, after),
        forall|j: int| is_first_struck(f, before, j) == is_first_struck(f, after, j),
{
    assert forall|k: int| 0 <= k < before.len() implies f.overlaps(#[trigger] before[k])
        == f.overlaps(after[k]) by {
        assert(after[k].position == before[k].position);
        assert(after[k].radius == before[k].radius);
    }
    if strikes(f, before) {
        let j = choose|j: int| 0 <= j < before.len() && f.overlaps(#[trigger] before[j]);
        assert(f.overlaps(after[j]));
    }
    if strikes(f, after) {
        let j = choose|j: int| 0 <= j < after.len() && f.overlaps(#[trigger] after[j]);
        assert(f.overlaps(before[j]));
    }
}

impl<S: Scalar> PhysicsSystem<S> {
    /// The index of the first wall particle that `f` overlaps, or `None`
    /// where it overlaps none.
    pub fn first_collision(&self, f: &Particle<S>) -> (hit: Option<usize>)
        ensures
            hit is Some <==> strikes(*f, self.wall_particles@),
            hit matches Some(j) ==> is_first_struck(*f, self.wall_particles@, j as int),
    {
        let count: usize = self.wall_particles.len();
        let mut j: usize = 0;
        while j < count
            invariant
                j <= count == self.wall_particles@.len(),
                forall|k: int| 0 <= k < j ==> !f.overlaps(#[trigger] self.wall_particles@[k]),
            decreases count - j,
        {
            if f.collides_with(&self.wall_particles[j]) {
                return Some(j);
            }
            j = j + 1;
        }
        None
    }

    /// Resolves the collisions of one frame. Each transient particle that
    /// overlaps the wall makes the first wall particle that it overlaps
    /// respond, and is removed; the others stay, in their order.
    pub fn handle_collisions(&mut self)
        ensures
            final(self).wall_particles@ == struck_by_all(
                old(self).wall_particles@,
                old(self).force_particles@,
                old(self).m1,
                old(self).m2,
            ),
            final(self).force_particles@ == old(self).force_particles@.filter(
                misses(old(self).wall_particles@),
            ),
            final(self).same_parameters(*old(self)),
    {
        let count: usize = self.force_particles.len();
        let ghost walls = self.wall_particles@;
        let ghost forces = self.force_particles@;
        let mut kept: Vec<Particle<S>> = Vec::new();
        let mut i: usize = 0;
        proof {
            reveal(Seq::filter);
            assert(forces.take(0) =~= Seq::<Particle<S>>::empty());
        }
        while i < count
            invariant
                i <= count == forces.len(),
                walls == old(self).wall_particles@,
                forces == old(self).force_particles@,
                self.force_particles@ == forces,
                self.same_parameters(*old(self)),
                self.wall_particles@ == struck_by_all(
                    walls,
                    forces.take(i as int),
                    self.m1,
                    self.m2,
                ),
                kept@ == forces.take(i as int).filter(misses(walls)),
            decreases count - i,
        {
            let f: Particle<S> = self.force_particles[i];
            let hit = self.first_collision(&f);
            proof {
                let seen = forces.take(i as int);
                let next = forces.take(i + 1);
                assert(next.drop_last() =~= seen);
                assert(next.last() == f);
                collisions_change_velocities_only(walls, seen, self.m1, self.m2);
                overlap_ignores_velocities(f, walls, self.wall_particles@);
                reveal(Seq::filter);
                if hit is Some {
                    some_overlap_is_first(f, self.wall_particles@);
                    first_struck_is_unique(
                        f,
                        self.wall_particles@,
                        hit->Some_0 as int,
                        first_struck(f, self.wall_particles@),
                    );
                }
            }
            match hit {
                Some(j) => {
                    let m1 = self.m1;
                    let m2 = self.m2;
                    self.wall_particles[j].apply_collision(&f, m1, m2);
                },
                None => {
                    kept.push(f);
                },
            }
            i = i + 1;
        }
        proof {
            assert(forces.take(count as int) =~= forces);
        }
        self.force_particles = kept;
    }
}

} // verus!
