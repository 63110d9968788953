//! One sphere of the simulation: where it is, how it moves, when it was made.

use crate::scalar::{ratio, ratio_of, zero, Scalar};
use crate::vector::Vec3;
use vstd::prelude::*;

verus! {

/// Why a look at the clock failed.
#[derive(Clone, Copy, Debug, PartialEq, Eq, Structural)]
pub enum ClockError {
    /// The clock gave no reading.
    Unavailable,
    /// The clock reads `now`, which lies before `earlier`, a time that it
    /// read before: that at which a particle was made, or that of the last
    /// look at the hands.
    WentBackwards { earlier: u64, now: u64 },
}

/// A sphere with a position and a velocity.
///
/// `original_position` is the anchor that spring gravity pulls the particle
/// back to; it is fixed when the particle is made. `diff` gathers what the
/// neighbours contribute during one frame and is cleared by every move.
/// Times are milliseconds on a clock of the caller's choosing.
#[derive(Debug, PartialEq)]
pub struct Particle<S: Scalar> {
    pub position: Vec3<S>,
    pub velocity: Vec3<S>,
    pub radius: S,
    pub created_time: u64,
    pub delete_flag: bool,
    pub diff: Vec3<S>,
    pub original_position: Vec3<S>,
}

impl<S: Scalar> Clone for Particle<S> {
    fn clone(&self) -> (p: Self)
        ensures
            p == *self,
    {
        *self
    }
}

impl<S: Scalar> Copy for Particle<S> {

}

impl<S: Scalar> Particle<S> {
    /// A particle at rest at `(x, y, z)`, anchored there, of radius one, made
    /// at `now`.
    pub open spec fn at_rest(x: S, y: S, z: S, now: u64) -> Self {
        Particle {
            position: Vec3 { x, y, z },
            velocity: Vec3::origin(),
            radius: S::of_int(1),
            created_time: now,
            delete_flag: false,
            diff: Vec3::origin(),
            original_position: Vec3 { x, y, z },
        }
    }

    /// Whether the particle is a sphere: whether its radius is more than zero.
    pub open spec fn is_sphere(self) -> bool {
        zero::<S>().less(self.radius)
    }

    /// Whether the particle is a sphere that carries nothing over from a
    /// frame: whether `diff` is zero and the radius more than zero. So it is
    /// made, and so every frame leaves it.
    pub open spec fn well_formed(self) -> bool {
        self.is_sphere() && self.diff == Vec3::<S>::origin()
    }

    /// The particle one step later: moved by its velocity, with `diff`
    /// cleared.
    pub open spec fn moved(self) -> Self {
        Particle { position: self.position.sum(self.velocity), diff: Vec3::origin(), ..self }
    }

    /// Whether the particle lies below the floor, the plane `z = 0`.
    pub open spec fn below_floor(self) -> bool {
        self.position.z.less(zero())
    }

    /// The stiffness of the spring that holds a particle to its anchor:
    /// `5 / 10000`.
    pub open spec fn spring_rate() -> S {
        ratio(5, 10000)
    }

    /// The pull of the spring on the particle: the way from its position to
    /// its anchor, times [`Self::spring_rate`].
    pub open spec fn spring_force(self) -> Vec3<S> {
        self.original_position.difference(self.position).scaled(Self::spring_rate())
    }

    /// The particle after spring gravity: back on its anchor and at rest where
    /// it was below the floor, else with the spring force added to its
    /// velocity.
    pub open spec fn sprung(self) -> Self {
        if self.below_floor() {
            Particle { position: self.original_position, velocity: Vec3::origin(), ..self }
        } else {
            Particle { velocity: self.velocity.sum(self.spring_force()), ..self }
        }
    }

    /// The particle with `v` added to `diff`.
    pub open spec fn with_contribution(self, v: Vec3<S>) -> Self {
        Particle { diff: self.diff.sum(v), ..self }
    }

    /// The factor by which the gathered neighbour positions are scaled for an
    /// averaging radius `d`: `1 / (4 * d * (d + 1))`, multiplied from the left.
    pub open spec fn neighbor_scale(d: i32) -> S {
        S::of_int(1).quotient(
            S::of_int(4).product(S::of_int(d as i128)).product(
                S::of_int(d as i128).sum(S::of_int(1)),
            ),
        )
    }

    /// The particle after `diff` was scaled by [`Self::neighbor_scale`] and
    /// then added to the velocity.
    pub open spec fn averaged(self, d: i32) -> Self {
        let scaled = self.diff.scaled(Self::neighbor_scale(d));
        Particle { diff: scaled, velocity: self.velocity.sum(scaled), ..self }
    }

    /// The particle with `v` added to its velocity.
    pub open spec fn pushed(self, v: Vec3<S>) -> Self {
        Particle { velocity: self.velocity.sum(v), ..self }
    }

    /// Whether at `now` the particle is older than `max_lifetime_ms`.
    pub open spec fn outlived(self, max_lifetime_ms: u64, now: u64) -> bool {
        now - self.created_time > max_lifetime_ms
    }

    /// The square of the distance between the centres of two particles.
    pub open spec fn distance_squared(self, other: Self) -> S {
        let dx = self.position.x.difference(other.position.x);
        let dy = self.position.y.difference(other.position.y);
        let dz = self.position.z.difference(other.position.z);
        dx.product(dx).sum(dy.product(dy)).sum(dz.product(dz))
    }

    /// Whether the spheres of two particles overlap: the squared distance of
    /// their centres is strictly less than the square of the sum of their
    /// radii.
    pub open spec fn overlaps(self, other: Self) -> bool {
        let reach = self.radius.sum(other.radius);
        self.distance_squared(other).less(reach.product(reach))
    }

    /// What a collision with `other` adds to the velocity of a particle of
    /// mass `m1`, `other` having mass `m2`:
    /// `((m1 - m2) * velocity + 2 * m2 * other.velocity) * (1 / (m1 + m2))`.
    pub open spec fn collision_gain(self, other: Self, m1: S, m2: S) -> Vec3<S> {
        let own = self.velocity.scaled(m1.difference(m2));
        let taken = other.velocity.scaled(S::of_int(2).product(m2));
        own.sum(taken).scaled(S::of_int(1).quotient(m1.sum(m2)))
    }

    /// The particle after a collision with `other`. Masses whose sum compares
    /// equal to zero leave it as it is.
    pub open spec fn after_collision(self, other: Self, m1: S, m2: S) -> Self {
        if m1.sum(m2).vanishes() {
            self
        } else {
            Particle { velocity: self.velocity.sum(self.collision_gain(other, m1, m2)), ..self }
        }
    }

    /// A particle at rest at `(x, y, z)`, anchored there, made at `now`.
    pub fn new(x: S, y: S, z: S, now: u64) -> (p: Self)
        ensures
            p == Self::at_rest(x, y, z, now),
            p.well_formed(),
    {
        proof {
            S::order_law(1);
        }
        let position = Vec3::from_coords(x, y, z);
        Particle {
            position,
            velocity: Vec3::new(),
            radius: S::from_int(1),
            created_time: now,
            delete_flag: false,
            diff: Vec3::new(),
            original_position: position,
        }
    }

    /// Sets the radius. The particle is a sphere afterwards where `radius` is
    /// more than zero.
    pub fn set_radius(&mut self, radius: S)
        ensures
            *final(self) == (Particle { radius, ..*old(self) }),
            final(self).is_sphere() == zero::<S>().less(radius),
    {
        self.radius = radius;
    }

    /// Moves the particle by its velocity and clears `diff`.
    pub fn move_particle(&mut self)
        ensures
            *final(self) == old(self).moved(),
            final(self).diff == Vec3::<S>::origin(),
    {
        self.position.add(&self.velocity);
        self.diff.reset();
    }

    /// Spring gravity. A particle below the floor is put back on its anchor
    /// and brought to rest; any other has the spring force added to its
    /// velocity and stays where it is.
    pub fn gravity(&mut self)
        ensures
            *final(self) == old(self).sprung(),
            old(self).below_floor() ==> final(self).position == old(self).original_position
                && final(self).velocity == Vec3::<S>::origin(),
            !old(self).below_floor() ==> final(self).position == old(self).position
                && final(self).velocity == old(self).velocity.sum(
                old(self).original_position.difference(old(self).position).scaled(ratio(5, 10000)),
            ),
    {
        if self.position.z.lt(S::from_int(0)) {
            self.position.copy(&self.original_position);
            self.velocity.reset();
        } else {
            let mut force = Vec3::new();
            force.sub(&self.original_position, &self.position);
            force.mult(ratio_of(5, 10000));
            self.velocity.add(&force);
        }
    }

    /// Adds `v`, the contribution of the neighbours around the particle, to
    /// `diff`.
    pub fn set_around_module(&mut self, v: &Vec3<S>)
        ensures
            *final(self) == old(self).with_contribution(*v),
    {
        self.diff.add(v);
    }

    /// Neighbour gravity for an averaging radius `d`: scales `diff` by
    /// [`Self::neighbor_scale`] and adds the result to the velocity.
    pub fn module_gravity(&mut self, d: i32)
        ensures
            *final(self) == old(self).averaged(d),
    {
        let span = S::from_int(d as i128);
        let a = S::from_int(1).over(S::from_int(4).times(span).times(span.plus(S::from_int(1))));
        self.diff.mult(a);
        self.velocity.add(&self.diff);
    }

    /// Adds `v` to the velocity.
    pub fn add_velocity(&mut self, v: &Vec3<S>)
        ensures
            *final(self) == old(self).pushed(*v),
    {
        self.velocity.add(v);
    }

    /// The position.
    pub fn get_position(&self) -> (r: &Vec3<S>)
        ensures
            *r == self.position,
    {
        &self.position
    }

    /// The velocity.
    pub fn get_velocity(&self) -> (r: &Vec3<S>)
        ensures
            *r == self.velocity,
    {
        &self.velocity
    }

    /// Whether at `now` the particle is older than `max_lifetime_ms`. A `now`
    /// that lies before the particle was made is an error.
    pub fn is_expired(&self, max_lifetime_ms: u64, now: u64) -> (r: Result<bool, ClockError>)
        ensures
            now >= self.created_time ==> r == Ok::<bool, ClockError>(
                self.outlived(max_lifetime_ms, now),
            ),
            now < self.created_time ==> r == Err::<bool, ClockError>(
                ClockError::WentBackwards { earlier: self.created_time, now },
            ),
    {
        if now < self.created_time {
            Err(ClockError::WentBackwards { earlier: self.created_time, now })
        } else {
            Ok(now - self.created_time > max_lifetime_ms)
        }
    }

    /// Whether the spheres of the two particles overlap. Spheres that only
    /// touch do not.
    pub fn collides_with(&self, other: &Particle<S>) -> (r: bool)
        ensures
            r == self.overlaps(*other),
    {
        let dx = self.position.x.minus(other.position.x);
        let dy = self.position.y.minus(other.position.y);
        let dz = self.position.z.minus(other.position.z);
        let distance_squared = dx.times(dx).plus(dy.times(dy)).plus(dz.times(dz));
        let radius_sum = self.radius.plus(other.radius);
        distance_squared.lt(radius_sum.times(radius_sum))
    }

    /// The response of this particle, of mass `m1`, to a collision with
    /// `other`, of mass `m2`: [`Self::collision_gain`] is added to the
    /// velocity. Nothing changes where `m1 + m2` compares equal to zero.
    pub fn apply_collision(&mut self, other: &Particle<S>, m1: S, m2: S)
        ensures
            *final(self) == old(self).after_collision(*other, m1, m2),
    {
        let total = m1.plus(m2);
        if total.is_zero() {
            return ;
        }
        let a = S::from_int(1).over(total);

        let mut v1 = Vec3::new();
        v1.copy(&self.velocity);
        v1.mult(m1.minus(m2));

        let mut v2 = Vec3::new();
        v2.copy(&other.velocity);
        v2.mult(S::from_int(2).times(m2));

        v1.add(&v2);
        v1.mult(a);

        self.velocity.add(&v1);
    }

    /// Two particles overlap whichever of them is asked.
    pub proof fn overlap_is_symmetric(a: Self, b: Self)
        ensures
            a.overlaps(b) == b.overlaps(a),
    {
        S::symmetry_laws(a.position.x, b.position.x);
        S::symmetry_laws(a.position.y, b.position.y);
        S::symmetry_laws(a.position.z, b.position.z);
        S::symmetry_laws(a.radius, b.radius);
    }

    /// No step of the simulation changes the radius of a particle, its anchor
    /// or the time at which it was made: a sphere stays the sphere it was.
    pub proof fn steps_keep_the_sphere(self, other: Self, v: Vec3<S>, d: i32, m1: S, m2: S)
        ensures
            self.moved().same_sphere(self),
            self.sprung().same_sphere(self),
            self.with_contribution(v).same_sphere(self),
            self.averaged(d).same_sphere(self),
            self.pushed(v).same_sphere(self),
            self.after_collision(other, m1, m2).same_sphere(self),
            self.moved().well_formed() == self.is_sphere(),
    {
    }

    /// Whether the particle has the radius, the anchor, the time of making
    /// and the flag of `other`.
    pub open spec fn same_sphere(self, other: Self) -> bool {
        &&& self.radius == other.radius
        &&& self.original_position == other.original_position
        &&& self.created_time == other.created_time
        &&& self.delete_flag == other.delete_flag
    }

    /// A collision changes the velocity of a particle and nothing else.
    pub proof fn collision_changes_velocity_only(self, other: Self, m1: S, m2: S)
        ensures
            self.after_collision(other, m1, m2) == (Particle {
                velocity: self.after_collision(other, m1, m2).velocity,
                ..self
            }),
    {
    }
}

} // verus!
