//! Throwing transient particles from a hand.
//!
//! A hand that moves fast enough throws a batch of transient particles. Each
//! starts near the hand, a little off on every axis, and flies in the
//! direction of the hand. How far off is drawn at random: 64 bits per axis
//! stand for a number in the unit interval, half is taken from it, and the
//! result is scaled by the spread distance and by 5 / 100.

use crate::input::HandSample;
use crate::particle::Particle;
use crate::physics::PhysicsSystem;
use crate::scalar::{ratio, ratio_of, Scalar};
use crate::vector::Vec3;
use vstd::prelude::*;

verus! {

/// Whether a hand that moves with `hand_velocity` throws particles: whether
/// the length of `hand_velocity` is more than 1 / 1000.
pub open spec fn strong_enough<S: Scalar>(hand_velocity: Vec3<S>) -> bool {
    ratio::<S>(1, 1000).less(hand_velocity.length())
}

/// Whether the physics system acts on `sample`: whether the hand has a
/// position, is open, and moves fast enough.
pub open spec fn throws<S: Scalar>(sample: HandSample<S>) -> bool {
    sample.position is Some && sample.is_open && strong_enough(sample.velocity)
}

/// How far off the hand a particle starts on one axis, for the drawn `bits`:
/// `spread_distance * (unit - 1 / 2) * (5 / 100)`, where `unit` is the number
/// in the unit interval that `bits` stand for.
pub open spec fn jitter<S: Scalar>(spread_distance: S, bits: u64) -> S {
    spread_distance.product(S::of_unit_bits(bits).difference(ratio(1, 2))).product(ratio(5, 100))
}

impl<S: Scalar> PhysicsSystem<S> {
    /// The transient particle thrown at `now` from `hand_position` by a hand
    /// that moves with `hand_velocity`, for the three words of `draw`: it has
    /// the radius `force_radius`, starts off the hand by the jitter of one
    /// word per axis, and has `hand_velocity` times `force_power_rate` added
    /// to a velocity of zero.
    pub open spec fn force_particle(
        self,
        hand_position: Vec3<S>,
        hand_velocity: Vec3<S>,
        spread_distance: S,
        draw: (u64, u64, u64),
        now: u64,
    ) -> Particle<S> {
        Particle {
            radius: self.force_radius,
            ..Particle::at_rest(
                hand_position.x.sum(jitter(spread_distance, draw.0)),
                hand_position.y.sum(jitter(spread_distance, draw.1)),
                hand_position.z.sum(jitter(spread_distance, draw.2)),
                now,
            )
        }.pushed(hand_velocity.scaled(self.force_power_rate))
    }

    /// The transient particles thrown for `draws`, one for each, in their
    /// order.
    pub open spec fn force_batch(
        self,
        hand_position: Vec3<S>,
        hand_velocity: Vec3<S>,
        spread_distance: S,
        draws: Seq<(u64, u64, u64)>,
        now: u64,
    ) -> Seq<Particle<S>> {
        Seq::new(
            draws.len(),
            |k: int|
                self.force_particle(hand_position, hand_velocity, spread_distance, draws[k], now),
        )
    }

    /// Throws one transient particle.
    fn throw_one(
        &mut self,
        hand_position: &Vec3<S>,
        hand_velocity: &Vec3<S>,
        spread_distance: S,
        draw: (u64, u64, u64),
        now: u64,
    )
        ensures
            final(self).force_particles@ == old(self).force_particles@.push(
                old(self).force_particle(
                    *hand_position,
                    *hand_velocity,
                    spread_distance,
                    draw,
                    now,
                ),
            ),
            final(self).wall_particles@ == old(self).wall_particles@,
            final(self).same_parameters(*old(self)),
            old(self).well_formed() ==> final(self).well_formed(),
    {
        let half: S = ratio_of(1, 2);
        let scale: S = ratio_of(5, 100);
        let spread_x = spread_distance.times(S::from_unit_bits(draw.0).minus(half)).times(scale);
        let spread_y = spread_distance.times(S::from_unit_bits(draw.1).minus(half)).times(scale);
        let spread_z = spread_distance.times(S::from_unit_bits(draw.2).minus(half)).times(scale);

        let mut force_particle = Particle::new(
            hand_position.x.plus(spread_x),
            hand_position.y.plus(spread_y),
            hand_position.z.plus(spread_z),
            now,
        );
        force_particle.set_radius(self.force_radius);

        let mut velocity = *hand_velocity;
        velocity.mult(self.force_power_rate);
        force_particle.add_velocity(&velocity);

        self.force_particles.push(force_particle);
    }

    /// Throws one transient particle for each of `draws`, at `now`, from
    /// `hand_position`, where the hand moves fast enough; does nothing where
    /// it does not. The wall is not touched.
    pub fn create_force_particles_from(
        &mut self,
        hand_position: &Vec3<S>,
        hand_velocity: &Vec3<S>,
        spread_distance: S,
        draws: &Vec<(u64, u64, u64)>,
        now: u64,
    )
        ensures
            strong_enough(*hand_velocity) ==> final(self).force_particles@
                == old(self).force_particles@ + old(self).force_batch(
                *hand_position,
                *hand_velocity,
                spread_distance,
                draws@,
                now,
            ),
            !strong_enough(*hand_velocity) ==> final(self).force_particles@
                == old(self).force_particles@,
            final(self).wall_particles@ == old(self).wall_particles@,
            final(self).same_parameters(*old(self)),
            old(self).well_formed() ==> final(self).well_formed(),
    {
        let ghost batch = self.force_batch(
            *hand_position,
            *hand_velocity,
            spread_distance,
            draws@,
            now,
        );
        if ratio_of::<S>(1, 1000).lt(hand_velocity.magnitude()) {
            let count: usize = draws.len();
            let mut i: usize = 0;
            assert(self.force_particles@ =~= old(self).force_particles@ + batch.take(0));
            while i < count
                invariant
                    i <= count == draws@.len(),
                    batch == old(self).force_batch(
                        *hand_position,
                        *hand_velocity,
                        spread_distance,
                        draws@,
                        now,
                    ),
                    self.force_particles@ == old(self).force_particles@ + batch.take(i as int),
                    self.wall_particles@ == old(self).wall_particles@,
                    self.same_parameters(*old(self)),
                    old(self).well_formed() ==> self.well_formed(),
                decreases count - i,
            {
                let draw: (u64, u64, u64) = draws[i];
                self.throw_one(hand_position, hand_velocity, spread_distance, draw, now);
                assert(self.force_particles@ =~= old(self).force_particles@ + batch.take(i + 1));
                i = i + 1;
            }
            assert(batch.take(count as int) =~= batch);
        }
    }

    /// Throws `make_force_num` transient particles at `now` from
    /// `hand_position`, where the hand moves fast enough; does nothing where
    /// it does not. The particles are those that
    /// [`Self::create_force_particles_from`] throws for `make_force_num`
    /// draws of three random words each. The wall is not touched.
    pub fn create_force_particles(
        &mut self,
        hand_position: &Vec3<S>,
        hand_velocity: &Vec3<S>,
        spread_distance: S,
        now: u64,
    )
        ensures
            strong_enough(*hand_velocity) ==> exists|draws: Seq<(u64, u64, u64)>|
                draws.len() == old(self).make_force_num && final(self).force_particles@
                    == old(self).force_particles@ + #[trigger] old(self).force_batch(
                    *hand_position,
                    *hand_velocity,
                    spread_distance,
                    draws,
                    now,
                ),
            !strong_enough(*hand_velocity) ==> final(self).force_particles@
                == old(self).force_particles@,
            final(self).wall_particles@ == old(self).wall_particles@,
            final(self).same_parameters(*old(self)),
            old(self).well_formed() ==> final(self).well_formed(),
    {
        if ratio_of::<S>(1, 1000).lt(hand_velocity.magnitude()) {
            let count: usize = self.make_force_num;
            let ghost mut draws: Seq<(u64, u64, u64)> = Seq::empty();
            let mut i: usize = 0;
            assert(self.force_particles@ =~= old(self).force_particles@ + old(self).force_batch(
                *hand_position,
                *hand_velocity,
                spread_distance,
                draws,
                now,
            ));
            while i < count
                invariant
                    i <= count == old(self).make_force_num,
                    draws.len() == i,
                    self.force_particles@ == old(self).force_particles@ + old(self).force_batch(
                        *hand_position,
                        *hand_velocity,
                        spread_distance,
                        draws,
                        now,
                    ),
                    self.wall_particles@ == old(self).wall_particles@,
                    self.same_parameters(*old(self)),
                    old(self).well_formed() ==> self.well_formed(),
                decreases count - i,
            {
                let draw: (u64, u64, u64) = (random_word(), random_word(), random_word());
                self.throw_one(hand_position, hand_velocity, spread_distance, draw, now);
                proof {
                    draws = draws.push(draw);
                    assert(self.force_particles@ =~= old(self).force_particles@ + old(
                        self,
                    ).force_batch(*hand_position, *hand_velocity, spread_distance, draws, now));
                }
                i = i + 1;
            }
        }
    }
}

impl<S: Scalar> PhysicsSystem<S> {
    /// Takes what the input hands over in one frame, at `now`. A hand that
    /// has a position, is open and moves fast enough throws
    /// `make_force_num` transient particles, as
    /// [`Self::create_force_particles`] does; any other changes nothing. The
    /// position is taken as it comes: it need not lie within any bounds.
    pub fn apply_hand_sample(&mut self, sample: &HandSample<S>, now: u64)
        ensures
            throws(*sample) ==> exists|draws: Seq<(u64, u64, u64)>|
                draws.len() == old(self).make_force_num && final(self).force_particles@
                    == old(self).force_particles@ + #[trigger] old(self).force_batch(
                    sample.position->Some_0,
                    sample.velocity,
                    sample.spread_distance,
                    draws,
                    now,
                ),
            !throws(*sample) ==> final(self).force_particles@ == old(self).force_particles@,
            final(self).wall_particles@ == old(self).wall_particles@,
            final(self).same_parameters(*old(self)),
            old(self).well_formed() ==> final(self).well_formed(),
    {
        match sample.position {
            Some(hand_position) => {
                if sample.is_open {
                    self.create_force_particles(
                        &hand_position,
                        &sample.velocity,
                        sample.spread_distance,
                        now,
                    );
                }
            },
            None => {},
        }
    }
}

/// A word of 64 random bits, from `rand::random`, which draws it from the
/// generator of the thread. Nothing is claimed of the word: every value may
/// come, and two calls need not agree. The call panics where the generator
/// cannot be seeded from the system, on its first use in a thread.
#[verifier::external_body]
fn random_word() -> (bits: u64) {
    rand::random::<u64>()
}

} // verus!
