//! The physics system: the wall, the transient particles, and the frame.

use crate::collisions::{
    collisions_change_velocities_only, misses, overlap_ignores_velocities, strikes, struck_by_all,
};
use crate::neighbors::{after_neighbor_pass, neighbor_pass_touches_diff_only};
use crate::particle::{ClockError, Particle};
use crate::scalar::{ratio, ratio_of, zero, Scalar};
use crate::vector::Vec3;
use vstd::prelude::*;

verus! {

/// Columns of the wall that [`PhysicsSystem::new`] builds.
pub const WALL_COLUMNS: i32 = 40;

/// Rows of the wall that [`PhysicsSystem::new`] builds.
pub const WALL_ROWS: i32 = 20;

/// Milliseconds after which a transient particle is removed.
pub const FORCE_LIFETIME_MS: u64 = 5000;

/// The wall, the transient particles and the parameters of the simulation.
///
/// `wall_particles` holds the wall row by row: the particle in row `r` and
/// column `c` stands at index `r * sphere_width_number + c`. The wall has
/// `sphere_width_number` columns and `sphere_height_number` rows; `d` is the
/// averaging radius, `m1` the mass of a wall particle and `m2` that of a
/// transient one.
pub struct PhysicsSystem<S: Scalar> {
    pub wall_particles: Vec<Particle<S>>,
    pub force_particles: Vec<Particle<S>>,
    pub sphere_width_number: i32,
    pub sphere_height_number: i32,
    pub d: i32,
    pub m1: S,
    pub m2: S,
    pub ball_radius: S,
    pub force_radius: S,
    pub force_power_rate: S,
    pub make_force_num: usize,
}

impl<S: Scalar> PhysicsSystem<S> {
    /// The wall particle that [`Self::new`] puts at `index`, for spheres of
    /// radius `ball_radius`: the grid point `(index % 40 - 20, index / 40 - 20)`
    /// of the half plane below the x axis, one diameter per grid step, on the
    /// floor.
    pub open spec fn wall_particle(index: int, ball_radius: S, now: u64) -> Particle<S> {
        let x = index % (WALL_COLUMNS as int) - 20;
        let y = index / (WALL_COLUMNS as int) - 20;
        Particle {
            radius: ball_radius,
            ..Particle::at_rest(
                S::of_int(x as i128).product(ball_radius).product(S::of_int(2)),
                S::of_int(y as i128).product(ball_radius).product(S::of_int(2)),
                zero(),
                now,
            )
        }
    }

    /// Whether `other` has the parameters of `self`: everything but the
    /// particles.
    pub open spec fn same_parameters(self, other: Self) -> bool {
        &&& self.sphere_width_number == other.sphere_width_number
        &&& self.sphere_height_number == other.sphere_height_number
        &&& self.d == other.d
        &&& self.m1 == other.m1
        &&& self.m2 == other.m2
        &&& self.ball_radius == other.ball_radius
        &&& self.force_radius == other.force_radius
        &&& self.force_power_rate == other.force_power_rate
        &&& self.make_force_num == other.make_force_num
    }

    /// Whether the system stands as a frame leaves it: every particle is a
    /// sphere with `diff` at zero, and `force_radius`, the radius that
    /// thrown particles get, is more than zero.
    pub open spec fn well_formed(self) -> bool {
        &&& zero::<S>().less(self.force_radius)
        &&& forall|k: int|
            0 <= k < self.wall_particles@.len() ==> (
            #[trigger] self.wall_particles@[k]).well_formed()
        &&& forall|k: int|
            0 <= k < self.force_particles@.len() ==> (
            #[trigger] self.force_particles@[k]).well_formed()
    }

    /// A system with a wall of 40 columns and 20 rows of spheres of radius 5,
    /// all made at `now`, and no transient particles.
    pub fn new(now: u64) -> (system: Self)
        ensures
            system.wall_particles@.len() == 800,
            forall|k: int|
                0 <= k < 800 ==> #[trigger] system.wall_particles@[k] == Self::wall_particle(
                    k,
                    S::of_int(5),
                    now,
                ),
            system.force_particles@.len() == 0,
            system.sphere_width_number == WALL_COLUMNS,
            system.sphere_height_number == WALL_ROWS,
            system.d == 10,
            system.m1 == S::of_int(1),
            system.m2 == S::of_int(1),
            system.ball_radius == S::of_int(5),
            system.force_radius == S::of_int(1),
            system.force_power_rate == ratio::<S>(4, 10),
            system.make_force_num == 500,
            system.well_formed(),
    {
        proof {
            S::order_law(5);
            S::order_law(1);
        }
        let ball_radius = S::from_int(5);
        let mut wall_particles: Vec<Particle<S>> = Vec::new();
        let mut y: i64 = -20;
        while y < 0
            invariant
                -20 <= y <= 0,
                ball_radius == S::of_int(5),
                wall_particles@.len() == (y + 20) * 40,
                forall|k: int|
                    0 <= k < wall_particles@.len() ==> #[trigger] wall_particles@[k]
                        == Self::wall_particle(k, ball_radius, now),
            decreases 0 - y,
        {
            let mut x: i64 = -20;
            while x < 20
                invariant
                    -20 <= y < 0,
                    -20 <= x <= 20,
                    ball_radius == S::of_int(5),
                    wall_particles@.len() == (y + 20) * 40 + (x + 20),
                    forall|k: int|
                        0 <= k < wall_particles@.len() ==> #[trigger] wall_particles@[k]
                            == Self::wall_particle(k, ball_radius, now),
                decreases 20 - x,
            {
                let mut p = Particle::new(
                    S::from_int(x as i128).times(ball_radius).times(S::from_int(2)),
                    S::from_int(y as i128).times(ball_radius).times(S::from_int(2)),
                    S::from_int(0),
                    now,
                );
                p.set_radius(ball_radius);
                wall_particles.push(p);
                x = x + 1;
            }
            y = y + 1;
        }
        PhysicsSystem {
            wall_particles,
            force_particles: Vec::new(),
            sphere_width_number: WALL_COLUMNS,
            sphere_height_number: WALL_ROWS,
            d: 10,
            m1: S::from_int(1),
            m2: S::from_int(1),
            ball_radius,
            force_radius: S::from_int(1),
            force_power_rate: ratio_of(4, 10),
            make_force_num: 500,
        }
    }

    /// The wall as the collisions of the frame find it: after the neighbour
    /// pass and the wall integration.
    pub open spec fn walls_before_collisions(self) -> Seq<Particle<S>> {
        after_wall_integration(
            after_neighbor_pass(
                self.wall_particles@,
                self.sphere_height_number as int,
                self.sphere_width_number as int,
                self.d as int,
            ),
            self.d,
        )
    }

    /// The wall after one frame.
    pub open spec fn walls_after_frame(self) -> Seq<Particle<S>> {
        struck_by_all(
            self.walls_before_collisions(),
            after_force_integration(self.force_particles@),
            self.m1,
            self.m2,
        )
    }

    /// The transient particles after one frame that ends at `now`: moved, then
    /// without those that met the wall, then without those that are older
    /// than [`FORCE_LIFETIME_MS`].
    pub open spec fn forces_after_frame(self, now: u64) -> Seq<Particle<S>> {
        after_force_integration(self.force_particles@).filter(
            misses(self.walls_before_collisions()),
        ).filter(young(FORCE_LIFETIME_MS, now))
    }

    /// Tells whether the clock can be trusted: whether `now` lies before the
    /// making of no transient particle. The error names the first transient
    /// particle that was made after `now`.
    pub fn check_clock(&self, now: u64) -> (r: Result<(), ClockError>)
        ensures
            r == clock_verdict(self.force_particles@, now),
    {
        let count: usize = self.force_particles.len();
        let mut i: usize = 0;
        while i < count
            invariant
                i <= count == self.force_particles@.len(),
                forall|k: int|
                    0 <= k < i ==> (#[trigger] self.force_particles@[k]).created_time <= now,
            decreases count - i,
        {
            let created: u64 = self.force_particles[i].created_time;
            if created > now {
                proof {
                    first_made_after_is_unique(
                        self.force_particles@,
                        now,
                        i as int,
                        first_made_after(self.force_particles@, now),
                    );
                }
                return Err(ClockError::WentBackwards { earlier: created, now });
            }
            i = i + 1;
        }
        Ok(())
    }

    /// Wall integration: every wall particle takes spring gravity, then
    /// neighbour gravity, then moves.
    pub fn update_wall_physics(&mut self)
        ensures
            final(self).wall_particles@ == after_wall_integration(
                old(self).wall_particles@,
                old(self).d,
            ),
            final(self).force_particles@ == old(self).force_particles@,
            final(self).same_parameters(*old(self)),
    {
        let count: usize = self.wall_particles.len();
        let d: i32 = self.d;
        let mut i: usize = 0;
        while i < count
            invariant
                i <= count == old(self).wall_particles@.len(),
                self.wall_particles@.len() == count,
                d == old(self).d,
                self.force_particles@ == old(self).force_particles@,
                self.same_parameters(*old(self)),
                forall|k: int|
                    0 <= k < i ==> #[trigger] self.wall_particles@[k]
                        == old(self).wall_particles@[k].sprung().averaged(d).moved(),
                forall|k: int|
                    i <= k < count ==> #[trigger] self.wall_particles@[k]
                        == old(self).wall_particles@[k],
            decreases count - i,
        {
            self.wall_particles[i].gravity();
            self.wall_particles[i].module_gravity(d);
            self.wall_particles[i].move_particle();
            i = i + 1;
        }
        assert(self.wall_particles@ =~= after_wall_integration(old(self).wall_particles@, d));
    }

    /// Integration of the transient particles: each one moves. They are free
    /// bodies: no spring holds them and no neighbour pulls them.
    pub fn update_force_physics(&mut self)
        ensures
            final(self).force_particles@ == after_force_integration(old(self).force_particles@),
            final(self).wall_particles@ == old(self).wall_particles@,
            final(self).same_parameters(*old(self)),
    {
        let count: usize = self.force_particles.len();
        let mut i: usize = 0;
        while i < count
            invariant
                i <= count == old(self).force_particles@.len(),
                self.force_particles@.len() == count,
                self.wall_particles@ == old(self).wall_particles@,
                self.same_parameters(*old(self)),
                forall|k: int|
                    0 <= k < i ==> #[trigger] self.force_particles@[k]
                        == old(self).force_particles@[k].moved(),
                forall|k: int|
                    i <= k < count ==> #[trigger] self.force_particles@[k]
                        == old(self).force_particles@[k],
            decreases count - i,
        {
            self.force_particles[i].move_particle();
            i = i + 1;
        }
        assert(self.force_particles@ =~= after_force_integration(old(self).force_particles@));
    }

    /// Removes the transient particles that are older than
    /// [`FORCE_LIFETIME_MS`] at `now`; the others stay, in their order.
    fn drop_expired(&mut self, now: u64)
        requires
            !made_after(old(self).force_particles@, now),
        ensures
            final(self).force_particles@ == old(self).force_particles@.filter(
                young(FORCE_LIFETIME_MS, now),
            ),
            final(self).wall_particles@ == old(self).wall_particles@,
            final(self).same_parameters(*old(self)),
    {
        let count: usize = self.force_particles.len();
        let ghost forces = self.force_particles@;
        let mut kept: Vec<Particle<S>> = Vec::new();
        let mut i: usize = 0;
        proof {
            reveal(Seq::filter);
            assert(forces.take(0) =~= Seq::<Particle<S>>::empty());
        }
        while i < count
            invariant
                i <= count == forces.len(),
                forces == old(self).force_particles@,
                self.force_particles@ == forces,
                self.wall_particles@ == old(self).wall_particles@,
                self.same_parameters(*old(self)),
                !made_after(forces, now),
                kept@ == forces.take(i as int).filter(young(FORCE_LIFETIME_MS, now)),
            decreases count - i,
        {
            let f: Particle<S> = self.force_particles[i];
            proof {
                assert(forces.take(i + 1).drop_last() =~= forces.take(i as int));
                assert(forces.take(i + 1).last() == f);
                assert(forces[i as int].created_time <= now);
                reveal(Seq::filter);
            }
            let keep: bool = match f.is_expired(FORCE_LIFETIME_MS, now) {
                Ok(expired) => !expired,
                Err(_) => true,
            };
            if keep {
                kept.push(f);
            }
            i = i + 1;
        }
        proof {
            assert(forces.take(count as int) =~= forces);
        }
        self.force_particles = kept;
    }

    /// Removes the transient particles that are older than
    /// [`FORCE_LIFETIME_MS`] at `now`. Where a transient particle was made
    /// after `now`, nothing is removed and the error names the first such
    /// particle.
    pub fn remove_expired_forces(&mut self, now: u64) -> (r: Result<(), ClockError>)
        ensures
            r == clock_verdict(old(self).force_particles@, now),
            r is Err ==> final(self).force_particles@ == old(self).force_particles@,
            r is Ok ==> final(self).force_particles@ == old(self).force_particles@.filter(
                young(FORCE_LIFETIME_MS, now),
            ),
            final(self).wall_particles@ == old(self).wall_particles@,
            final(self).same_parameters(*old(self)),
    {
        match self.check_clock(now) {
            Err(e) => Err(e),
            Ok(()) => {
                self.drop_expired(now);
                Ok(())
            },
        }
    }

    /// One frame that ends at `now`: the neighbour pass, the wall
    /// integration, the integration of the transient particles, the
    /// collisions, and the removal of the transient particles that are older
    /// than [`FORCE_LIFETIME_MS`], in this order.
    ///
    /// Where a transient particle was made after `now` the frame is not run:
    /// nothing changes, and the error names the first such particle.
    ///
    /// After a frame the wall holds the particles it held, in their order and
    /// on their anchors; `diff` is zero in every particle; and no transient
    /// particle is left that overlaps the wall or has outlived its time.
    pub fn update(&mut self, now: u64) -> (r: Result<(), ClockError>)
        ensures
            r == clock_verdict(old(self).force_particles@, now),
            r is Err ==> final(self).wall_particles@ == old(self).wall_particles@
                && final(self).force_particles@ == old(self).force_particles@,
            r is Ok ==> final(self).wall_particles@ == old(self).walls_after_frame()
                && final(self).force_particles@ == old(self).forces_after_frame(now),
            final(self).same_parameters(*old(self)),
            same_anchored_spheres(old(self).wall_particles@, final(self).wall_particles@),
            r is Ok ==> settled(final(self).wall_particles@, final(self).force_particles@, now),
            old(self).well_formed() ==> final(self).well_formed(),
    {
        match self.check_clock(now) {
            Err(e) => {
                return Err(e);
            },
            Ok(()) => {},
        }
        let ghost start = *self;
        self.update_wall_module_forces();
        self.update_wall_physics();
        self.update_force_physics();
        self.handle_collisions();
        proof {
            frame_keeps_the_clock(start, now);
        }
        self.drop_expired(now);
        proof {
            frame_keeps_the_wall(start);
            frame_settles(start, now);
            frame_moves_the_transients(start, now);
        }
        Ok(())
    }

    /// One frame that ends at the time that the clock reads: [`Self::update`]
    /// for a reading, and an error that changes nothing for a clock that
    /// gave none. No frame is run without a look at the clock.
    pub fn update_at(&mut self, reading: Option<u64>) -> (r: Result<(), ClockError>)
        ensures
            reading is None ==> r == Err::<(), ClockError>(ClockError::Unavailable),
            reading matches Some(now) ==> r == clock_verdict(old(self).force_particles@, now),
            r is Err ==> final(self).wall_particles@ == old(self).wall_particles@
                && final(self).force_particles@ == old(self).force_particles@,
            r is Ok ==> final(self).wall_particles@ == old(self).walls_after_frame()
                && final(self).force_particles@ == old(self).forces_after_frame(reading->Some_0),
            final(self).same_parameters(*old(self)),
            same_anchored_spheres(old(self).wall_particles@, final(self).wall_particles@),
            r is Ok ==> settled(
                final(self).wall_particles@,
                final(self).force_particles@,
                reading->Some_0,
            ),
            old(self).well_formed() ==> final(self).well_formed(),
    {
        match reading {
            None => Err(ClockError::Unavailable),
            Some(now) => self.update(now),
        }
    }

    /// All particles: those of the wall in their order, then the transient
    /// ones in theirs.
    pub fn get_all_particles(&self) -> (all: Vec<&Particle<S>>)
        ensures
            all@.len() == self.wall_particles@.len() + self.force_particles@.len(),
            forall|k: int|
                0 <= k < self.wall_particles@.len() ==> *(#[trigger] all@[k])
                    == self.wall_particles@[k],
            forall|k: int|
                0 <= k < self.force_particles@.len() ==> *(#[trigger] all@[
                    self.wall_particles@.len() + k
                ]) == self.force_particles@[k],
    {
        let mut all: Vec<&Particle<S>> = Vec::new();
        let walls: usize = self.wall_particles.len();
        let forces: usize = self.force_particles.len();
        let mut i: usize = 0;
        while i < walls
            invariant
                i <= walls == self.wall_particles@.len(),
                all@.len() == i,
                forall|k: int| 0 <= k < i ==> *(#[trigger] all@[k]) == self.wall_particles@[k],
            decreases walls - i,
        {
            all.push(&self.wall_particles[i]);
            i = i + 1;
        }
        let mut j: usize = 0;
        while j < forces
            invariant
                j <= forces == self.force_particles@.len(),
                walls == self.wall_particles@.len(),
                all@.len() == walls + j,
                forall|k: int| 0 <= k < walls ==> *(#[trigger] all@[k]) == self.wall_particles@[k],
                forall|k: int|
                    0 <= k < j ==> *(#[trigger] all@[walls + k]) == self.force_particles@[k],
            decreases forces - j,
        {
            all.push(&self.force_particles[j]);
            j = j + 1;
        }
        all
    }
}

/// The wall after wall integration with the averaging radius `d`: every
/// particle after spring gravity, then neighbour gravity, then the move.
pub open spec fn after_wall_integration<S: Scalar>(walls: Seq<Particle<S>>, d: i32) -> Seq<
    Particle<S>,
> {
    Seq::new(walls.len(), |k: int| walls[k].sprung().averaged(d).moved())
}

/// The transient particles after their integration: every particle moved.
pub open spec fn after_force_integration<S: Scalar>(forces: Seq<Particle<S>>) -> Seq<
    Particle<S>,
> {
    Seq::new(forces.len(), |k: int| forces[k].moved())
}

/// The test that a particle passes where at `now` it is no older than
/// `max_lifetime_ms`.
pub open spec fn young<S: Scalar>(max_lifetime_ms: u64, now: u64) -> spec_fn(Particle<S>) -> bool {
    |f: Particle<S>| !f.outlived(max_lifetime_ms, now)
}

/// Whether some particle of `forces` was made after `now`.
pub open spec fn made_after<S: Scalar>(forces: Seq<Particle<S>>, now: u64) -> bool {
    exists|i: int| 0 <= i < forces.len() && (#[trigger] forces[i]).created_time > now
}

/// Whether `forces[i]` is the first particle of `forces` that was made after
/// `now`.
pub open spec fn is_first_made_after<S: Scalar>(
    forces: Seq<Particle<S>>,
    now: u64,
    i: int,
) -> bool {
    &&& 0 <= i < forces.len()
    &&& forces[i].created_time > now
    &&& forall|k: int| 0 <= k < i ==> (#[trigger] forces[k]).created_time <= now
}

/// The index of the first particle of `forces` that was made after `now`,
/// where there is one.
pub open spec fn first_made_after<S: Scalar>(forces: Seq<Particle<S>>, now: u64) -> int {
    choose|i: int| is_first_made_after(forces, now, i)
}

/// What a look at the clock gives for a frame that ends at `now`: an error
/// that names the first particle of `forces` made after `now`, or `Ok` where
/// there is none.
pub open spec fn clock_verdict<S: Scalar>(forces: Seq<Particle<S>>, now: u64) -> Result<
    (),
    ClockError,
> {
    if made_after(forces, now) {
        Err(
            ClockError::WentBackwards {
                earlier: forces[first_made_after(forces, now)].created_time,
                now,
            },
        )
    } else {
        Ok(())
    }
}

/// Whether `after` holds the particles of `before`, in their order, each with
/// the anchor, the radius and the time of making that it had.
pub open spec fn same_anchored_spheres<S: Scalar>(
    before: Seq<Particle<S>>,
    after: Seq<Particle<S>>,
) -> bool {
    &&& after.len() == before.len()
    &&& forall|k: int| 0 <= k < before.len() ==> (#[trigger] after[k]).same_sphere(before[k])
}

/// Whether a frame that ended at `now` left things in order: `diff` is zero
/// in every particle, and no transient particle overlaps the wall or is older
/// than [`FORCE_LIFETIME_MS`].
pub open spec fn settled<S: Scalar>(
    walls: Seq<Particle<S>>,
    forces: Seq<Particle<S>>,
    now: u64,
) -> bool {
    &&& forall|k: int| 0 <= k < walls.len() ==> (#[trigger] walls[k]).diff == Vec3::<S>::origin()
    &&& forall|k: int|
        0 <= k < forces.len() ==> {
            &&& (#[trigger] forces[k]).diff == Vec3::<S>::origin()
            &&& !strikes(forces[k], walls)
            &&& !forces[k].outlived(FORCE_LIFETIME_MS, now)
        }
}

/// Two indices that both are the first made after `now` are one.
pub proof fn first_made_after_is_unique<S: Scalar>(
    forces: Seq<Particle<S>>,
    now: u64,
    i: int,
    j: int,
)
    requires
        is_first_made_after(forces, now, i),
    ensures
        is_first_made_after(forces, now, j) ==> i == j,
        is_first_made_after(forces, now, first_made_after(forces, now)),
        first_made_after(forces, now) == i,
{
}

/// A frame leaves no transient particle with a time of making that the
/// particles before it did not have.
proof fn frame_keeps_the_clock<S: Scalar>(start: PhysicsSystem<S>, now: u64)
    requires
        !made_after(start.force_particles@, now),
    ensures
        !made_after(
            after_force_integration(start.force_particles@).filter(
                misses(start.walls_before_collisions()),
            ),
            now,
        ),
{
    let moved = after_force_integration(start.force_particles@);
    let kept = moved.filter(misses(start.walls_before_collisions()));
    assert forall|i: int| 0 <= i < kept.len() implies (#[trigger] kept[i]).created_time <= now by {
        moved.lemma_filter_contains_rev(misses(start.walls_before_collisions()), kept[i]);
        let k = choose|k: int| 0 <= k < moved.len() && moved[k] == kept[i];
        assert(start.force_particles@[k].created_time <= now);
    }
}

/// A frame keeps the wall: its particles, their order, their anchors, radii
/// and times of making.
pub proof fn frame_keeps_the_wall<S: Scalar>(start: PhysicsSystem<S>)
    ensures
        same_anchored_spheres(start.wall_particles@, start.walls_after_frame()),
{
    let gathered = after_neighbor_pass(
        start.wall_particles@,
        start.sphere_height_number as int,
        start.sphere_width_number as int,
        start.d as int,
    );
    neighbor_pass_touches_diff_only(
        start.wall_particles@,
        start.sphere_height_number as int,
        start.sphere_width_number as int,
        start.d as int,
    );
    let integrated = start.walls_before_collisions();
    collisions_change_velocities_only(
        integrated,
        after_force_integration(start.force_particles@),
        start.m1,
        start.m2,
    );
    let last = start.walls_after_frame();
    assert forall|k: int| 0 <= k < start.wall_particles@.len() implies (
    #[trigger] last[k]).same_sphere(start.wall_particles@[k]) by {
        assert(integrated[k] == gathered[k].sprung().averaged(start.d).moved());
    }
}

/// Whether `f` is one of `forces`, moved by one step.
pub open spec fn is_moved_from<S: Scalar>(f: Particle<S>, forces: Seq<Particle<S>>) -> bool {
    exists|j: int| 0 <= j < forces.len() && f == (#[trigger] forces[j]).moved()
}

/// Every transient particle that a frame leaves is one that was there before
/// it, moved by one step.
pub proof fn frame_moves_the_transients<S: Scalar>(start: PhysicsSystem<S>, now: u64)
    ensures
        forall|k: int|
            0 <= k < start.forces_after_frame(now).len() ==> is_moved_from(
                #[trigger] start.forces_after_frame(now)[k],
                start.force_particles@,
            ),
{
    let integrated = start.walls_before_collisions();
    let moved = after_force_integration(start.force_particles@);
    let missed = moved.filter(misses(integrated));
    let left = start.forces_after_frame(now);
    assert forall|k: int| 0 <= k < left.len() implies is_moved_from(
        #[trigger] left[k],
        start.force_particles@,
    ) by {
        let f = left[k];
        missed.lemma_filter_contains_rev(young(FORCE_LIFETIME_MS, now), f);
        moved.lemma_filter_contains_rev(misses(integrated), f);
        let j = choose|j: int| 0 <= j < moved.len() && moved[j] == f;
        assert(f == start.force_particles@[j].moved());
    }
}

/// A frame that the clock allows ends settled.
pub proof fn frame_settles<S: Scalar>(start: PhysicsSystem<S>, now: u64)
    ensures
        settled(start.walls_after_frame(), start.forces_after_frame(now), now),
{
    let integrated = start.walls_before_collisions();
    let moved = after_force_integration(start.force_particles@);
    let last = start.walls_after_frame();
    let missed = moved.filter(misses(integrated));
    let left = start.forces_after_frame(now);
    collisions_change_velocities_only(integrated, moved, start.m1, start.m2);
    assert forall|k: int| 0 <= k < last.len() implies (#[trigger] last[k]).diff == Vec3::<
        S,
    >::origin() by {
        assert(integrated[k].diff == Vec3::<S>::origin());
    }
    assert forall|k: int| 0 <= k < left.len() implies {
        &&& (#[trigger] left[k]).diff == Vec3::<S>::origin()
        &&& !strikes(left[k], last)
        &&& !left[k].outlived(FORCE_LIFETIME_MS, now)
    } by {
        let f = left[k];
        missed.lemma_filter_pred(young(FORCE_LIFETIME_MS, now), k);
        missed.lemma_filter_contains_rev(young(FORCE_LIFETIME_MS, now), f);
        let i = choose|i: int| 0 <= i < missed.len() && missed[i] == f;
        moved.lemma_filter_pred(misses(integrated), i);
        moved.lemma_filter_contains_rev(misses(integrated), f);
        let j = choose|j: int| 0 <= j < moved.len() && moved[j] == f;
        assert(f == start.force_particles@[j].moved());
        overlap_ignores_velocities(f, integrated, last);
    }
}

} // verus!
