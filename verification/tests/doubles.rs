use forceit::input::{
    BodyJoints, Calibration, ElementState, HandSample, HandState, InputSystem, MouseButton,
    PoseReading,
};
use forceit::particle::{ClockError, Particle};
use forceit::physics::{PhysicsSystem, FORCE_LIFETIME_MS, WALL_COLUMNS, WALL_ROWS};
use forceit::scalar::{ratio_of, Scalar};
use forceit::vector::Vec3;

/// Double precision numbers as the scalar of the simulation.
#[derive(Clone, Copy, Debug, PartialEq)]
struct Real(f64);

impl Scalar for Real {
    fn of_int(n: i128) -> Self {
        Real(n as f64)
    }

    fn of_unit_bits(bits: u64) -> Self {
        Real((bits >> 11) as f64 * (1.0 / 9007199254740992.0))
    }

    fn sum(self, rhs: Self) -> Self {
        Real(self.0 + rhs.0)
    }

    fn difference(self, rhs: Self) -> Self {
        Real(self.0 - rhs.0)
    }

    fn product(self, rhs: Self) -> Self {
        Real(self.0 * rhs.0)
    }

    fn quotient(self, rhs: Self) -> Self {
        Real(self.0 / rhs.0)
    }

    fn root(self) -> Self {
        Real(self.0.sqrt())
    }

    fn less(self, rhs: Self) -> bool {
        self.0 < rhs.0
    }

    fn vanishes(self) -> bool {
        self.0 == 0.0
    }

    fn from_int(n: i128) -> Self {
        Real(n as f64)
    }

    fn from_unit_bits(bits: u64) -> Self {
        Real((bits >> 11) as f64 * (1.0 / 9007199254740992.0))
    }

    fn plus(self, rhs: Self) -> Self {
        Real(self.0 + rhs.0)
    }

    fn minus(self, rhs: Self) -> Self {
        Real(self.0 - rhs.0)
    }

    fn times(self, rhs: Self) -> Self {
        Real(self.0 * rhs.0)
    }

    fn over(self, rhs: Self) -> Self {
        Real(self.0 / rhs.0)
    }

    fn sqrt(self) -> Self {
        Real(self.0.sqrt())
    }

    fn lt(self, rhs: Self) -> bool {
        self.0 < rhs.0
    }

    fn is_zero(self) -> bool {
        self.0 == 0.0
    }

    fn zero_laws() {}

    fn order_law(_n: i128) {}

    fn symmetry_laws(_a: Self, _b: Self) {}
}

fn vec3(x: f64, y: f64, z: f64) -> Vec3<Real> {
    Vec3::from_coords(Real(x), Real(y), Real(z))
}

fn particle(x: f64, y: f64, z: f64) -> Particle<Real> {
    Particle::new(Real(x), Real(y), Real(z), 0)
}


#[test]
fn new_vector_is_zero() {
    assert_eq!(Vec3::<Real>::new(), vec3(0.0, 0.0, 0.0));
    assert_eq!(Vec3::<Real>::default(), vec3(0.0, 0.0, 0.0));
}

#[test]
fn add_changes_the_vector_in_place() {
    let mut v = vec3(1.0, 2.0, 3.0);
    v.add(&vec3(0.5, -2.0, 10.0));
    assert_eq!(v, vec3(1.5, 0.0, 13.0));
}

#[test]
fn sub_points_from_current_to_target() {
    let mut v = vec3(100.0, 100.0, 100.0);
    let target = vec3(5.0, 7.0, 9.0);
    let current = vec3(1.0, 10.0, 9.5);
    v.sub(&target, &current);
    assert_eq!(v, vec3(4.0, -3.0, -0.5));
    v.sub(&current, &target);
    assert_eq!(v, vec3(-4.0, 3.0, 0.5));
}

#[test]
fn mult_scales_every_component() {
    let mut v = vec3(1.0, -2.0, 4.0);
    v.mult(Real(0.5));
    assert_eq!(v, vec3(0.5, -1.0, 2.0));
}

#[test]
fn dot_and_lengths() {
    let v = vec3(3.0, 4.0, 12.0);
    let w = vec3(1.0, -1.0, 0.5);
    assert_eq!(v.dot(&w), Real(3.0 - 4.0 + 6.0));
    assert_eq!(v.mag_squared(), Real(169.0));
    assert_eq!(v.magnitude(), Real(13.0));
}

#[test]
fn normalize_scales_to_length_one() {
    let mut v = vec3(3.0, 4.0, 0.0);
    v.normalize();
    assert_eq!(v, vec3(3.0 / 5.0, 4.0 / 5.0, 0.0));
    assert_eq!(v, vec3(0.6, 0.8, 0.0));
}

#[test]
fn normalize_leaves_the_zero_vector() {
    let mut v = vec3(0.0, 0.0, 0.0);
    v.normalize();
    assert_eq!(v, vec3(0.0, 0.0, 0.0));
    v.normalize();
    assert_eq!(v, vec3(0.0, 0.0, 0.0));
    assert!(!v.x.0.is_nan() && !v.y.0.is_nan() && !v.z.0.is_nan());
}

#[test]
fn copy_and_reset() {
    let mut v = vec3(1.0, 2.0, 3.0);
    v.copy(&vec3(7.0, 8.0, 9.0));
    assert_eq!(v, vec3(7.0, 8.0, 9.0));
    v.reset();
    assert_eq!(v, vec3(0.0, 0.0, 0.0));
}

#[test]
fn operators_return_new_vectors() {
    let a = vec3(1.0, 2.0, 3.0);
    let b = vec3(0.5, 0.25, -3.0);
    assert_eq!(a + b, vec3(1.5, 2.25, 0.0));
    assert_eq!(a - b, vec3(0.5, 1.75, 6.0));
    assert_eq!(b - a, vec3(-0.5, -1.75, -6.0));
    assert_eq!(a * Real(2.0), vec3(2.0, 4.0, 6.0));
    assert_eq!(a, vec3(1.0, 2.0, 3.0));
}

#[test]
fn ratios_are_the_nearest_doubles() {
    assert_eq!(ratio_of::<Real>(5, 10000), Real(0.0005));
    assert_eq!(ratio_of::<Real>(1, 1000), Real(0.001));
    assert_eq!(ratio_of::<Real>(5, 100), Real(0.05));
    assert_eq!(ratio_of::<Real>(4, 10), Real(0.4));
    assert_eq!(ratio_of::<Real>(1, 2), Real(0.5));
    assert_eq!(ratio_of::<Real>(1, 10), Real(0.1));
}

#[test]
fn new_particle_rests_on_its_anchor() {
    let p = Particle::new(Real(1.5), Real(-2.0), Real(3.0), 1234);
    assert_eq!(p.position, vec3(1.5, -2.0, 3.0));
    assert_eq!(p.original_position, vec3(1.5, -2.0, 3.0));
    assert_eq!(p.velocity, vec3(0.0, 0.0, 0.0));
    assert_eq!(p.diff, vec3(0.0, 0.0, 0.0));
    assert_eq!(p.radius, Real(1.0));
    assert_eq!(p.created_time, 1234);
    assert!(!p.delete_flag);
}

#[test]
fn spring_gravity_above_the_floor_adds_the_spring_force() {
    let mut p = particle(10.0, -20.0, 0.0);
    p.position = vec3(12.0, -26.0, 4.0);
    p.velocity = vec3(1.0, 2.0, 3.0);
    p.gravity();
    assert_eq!(p.position, vec3(12.0, -26.0, 4.0));
    assert_eq!(
        p.velocity,
        vec3(
            1.0 + (10.0 - 12.0) * 0.0005,
            2.0 + (-20.0 + 26.0) * 0.0005,
            3.0 + (0.0 - 4.0) * 0.0005
        )
    );
    assert_eq!(p.velocity, vec3(0.999, 2.003, 2.998));
}

#[test]
fn spring_gravity_on_the_floor_counts_as_above() {
    let mut p = particle(0.0, 0.0, 0.0);
    p.position = vec3(2.0, 0.0, 0.0);
    p.gravity();
    assert_eq!(p.position, vec3(2.0, 0.0, 0.0));
    assert_eq!(p.velocity, vec3(-0.001, 0.0, 0.0));
}

#[test]
fn spring_gravity_below_the_floor_resets_the_particle() {
    let mut p = particle(10.0, -20.0, 0.0);
    p.position = vec3(12.0, -26.0, -0.25);
    p.velocity = vec3(1.0, 2.0, 3.0);
    p.gravity();
    assert_eq!(p.position, vec3(10.0, -20.0, 0.0));
    assert_eq!(p.velocity, vec3(0.0, 0.0, 0.0));
}

#[test]
fn move_adds_the_velocity_and_clears_diff() {
    let mut p = particle(1.0, 2.0, 3.0);
    p.velocity = vec3(0.5, -0.5, 0.25);
    p.set_around_module(&vec3(7.0, 8.0, 9.0));
    assert_eq!(p.diff, vec3(7.0, 8.0, 9.0));
    p.move_particle();
    assert_eq!(p.position, vec3(1.5, 1.5, 3.25));
    assert_eq!(p.diff, vec3(0.0, 0.0, 0.0));
    assert_eq!(p.velocity, vec3(0.5, -0.5, 0.25));
}

#[test]
fn contributions_add_up_in_diff() {
    let mut p = particle(0.0, 0.0, 0.0);
    p.set_around_module(&vec3(1.0, 2.0, 3.0));
    p.set_around_module(&vec3(10.0, 20.0, 30.0));
    assert_eq!(p.diff, vec3(11.0, 22.0, 33.0));
}

#[test]
fn neighbor_gravity_scales_by_one_over_440_for_radius_ten() {
    let mut p = particle(0.0, 0.0, 0.0);
    p.set_around_module(&vec3(1.0, 440.0, -880.0));
    p.module_gravity(10);
    let scale = 1.0 / 440.0;
    assert_eq!(p.diff, vec3(scale, 440.0 * scale, -880.0 * scale));
    assert_eq!(p.velocity, vec3(scale, 440.0 * scale, -880.0 * scale));
}

#[test]
fn neighbor_gravity_scales_by_one_over_24_for_radius_two() {
    let mut p = particle(0.0, 0.0, 0.0);
    p.velocity = vec3(1.0, 1.0, 1.0);
    p.set_around_module(&vec3(24.0, 48.0, -12.0));
    p.module_gravity(2);
    let scale = 1.0 / 24.0;
    assert_eq!(p.velocity, vec3(1.0 + 24.0 * scale, 1.0 + 48.0 * scale, 1.0 - 12.0 * scale));
}

#[test]
fn add_velocity_adds() {
    let mut p = particle(0.0, 0.0, 0.0);
    p.add_velocity(&vec3(1.0, 2.0, 3.0));
    p.add_velocity(&vec3(0.5, 0.5, 0.5));
    assert_eq!(*p.get_velocity(), vec3(1.5, 2.5, 3.5));
    assert_eq!(*p.get_position(), vec3(0.0, 0.0, 0.0));
}

#[test]
fn expiry_is_strict() {
    let p = Particle::new(Real(0.0), Real(0.0), Real(0.0), 1000);
    assert_eq!(p.is_expired(5000, 6000), Ok(false));
    assert_eq!(p.is_expired(5000, 6001), Ok(true));
    assert_eq!(p.is_expired(5000, 1000), Ok(false));
    assert_eq!(p.is_expired(0, 1001), Ok(true));
}

#[test]
fn expiry_before_creation_is_a_clock_error() {
    let p = Particle::new(Real(0.0), Real(0.0), Real(0.0), 1000);
    assert_eq!(p.is_expired(5000, 999), Err(ClockError::WentBackwards { earlier: 1000, now: 999 }));
}

#[test]
fn overlapping_spheres_collide_both_ways() {
    let mut a = particle(0.0, 0.0, 0.0);
    a.set_radius(Real(2.0));
    let mut b = particle(1.0, 2.0, 2.0);
    b.set_radius(Real(1.5));
    assert!(a.collides_with(&b));
    assert!(b.collides_with(&a));
}

#[test]
fn touching_spheres_do_not_collide() {
    let mut a = particle(0.0, 0.0, 0.0);
    a.set_radius(Real(2.0));
    let mut b = particle(3.0, 4.0, 0.0);
    b.set_radius(Real(3.0));
    assert!(!a.collides_with(&b));
    assert!(!b.collides_with(&a));
    b.set_radius(Real(3.5));
    assert!(a.collides_with(&b));
    assert!(b.collides_with(&a));
}

#[test]
fn distant_spheres_do_not_collide() {
    let a = particle(0.0, 0.0, 0.0);
    let b = particle(0.0, 0.0, 2.5);
    assert!(!a.collides_with(&b));
    assert!(!b.collides_with(&a));
}

#[test]
fn collision_with_equal_masses_takes_the_velocity_of_the_other() {
    let mut wall = particle(0.0, 0.0, 0.0);
    wall.velocity = vec3(1.0, 2.0, 3.0);
    let mut force = particle(0.5, 0.0, 0.0);
    force.velocity = vec3(4.0, -6.0, 8.0);
    wall.apply_collision(&force, Real(1.0), Real(1.0));
    assert_eq!(wall.velocity, vec3(1.0 + 4.0, 2.0 - 6.0, 3.0 + 8.0));
    assert_eq!(force.velocity, vec3(4.0, -6.0, 8.0));
    assert_eq!(wall.position, vec3(0.0, 0.0, 0.0));
}

#[test]
fn collision_with_unequal_masses_follows_the_formula() {
    let mut wall = particle(0.0, 0.0, 0.0);
    wall.velocity = vec3(1.0, 2.0, 3.0);
    let mut force = particle(0.5, 0.0, 0.0);
    force.velocity = vec3(4.0, -6.0, 8.0);
    wall.apply_collision(&force, Real(3.0), Real(1.0));
    // ((3 - 1) * v + 2 * 1 * w) * (1 / 4), added to v
    assert_eq!(
        wall.velocity,
        vec3(1.0 + (2.0 + 8.0) * 0.25, 2.0 + (4.0 - 12.0) * 0.25, 3.0 + (6.0 + 16.0) * 0.25)
    );
    assert_eq!(wall.velocity, vec3(3.5, 0.0, 8.5));
}

#[test]
fn collision_with_masses_that_cancel_changes_nothing() {
    let mut wall = particle(0.0, 0.0, 0.0);
    wall.velocity = vec3(1.0, 2.0, 3.0);
    let mut force = particle(0.5, 0.0, 0.0);
    force.velocity = vec3(4.0, -6.0, 8.0);
    let before = wall;
    wall.apply_collision(&force, Real(1.0), Real(-1.0));
    assert_eq!(wall, before);
    wall.apply_collision(&force, Real(0.0), Real(0.0));
    assert_eq!(wall, before);
}

fn grid_position(index: usize) -> Vec3<Real> {
    let x = (index % 40) as f64 - 20.0;
    let y = (index / 40) as f64 - 20.0;
    vec3(x * 5.0 * 2.0, y * 5.0 * 2.0, 0.0)
}

fn transient(x: f64, y: f64, z: f64, velocity: Vec3<Real>, created: u64) -> Particle<Real> {
    let mut p = Particle::new(Real(x), Real(y), Real(z), created);
    p.velocity = velocity;
    p
}

#[test]
fn new_system_has_a_wall_of_forty_by_twenty() {
    let system: PhysicsSystem<Real> = PhysicsSystem::new(77);
    assert_eq!(WALL_COLUMNS, 40);
    assert_eq!(WALL_ROWS, 20);
    assert_eq!(system.wall_particles.len(), 800);
    assert_eq!(system.force_particles.len(), 0);
    assert_eq!(system.sphere_width_number, 40);
    assert_eq!(system.sphere_height_number, 20);
    assert_eq!(system.d, 10);
    assert_eq!(system.m1, Real(1.0));
    assert_eq!(system.m2, Real(1.0));
    assert_eq!(system.ball_radius, Real(5.0));
    assert_eq!(system.force_radius, Real(1.0));
    assert_eq!(system.force_power_rate, Real(0.4));
    assert_eq!(system.make_force_num, 500);
    assert_eq!(system.wall_particles[0].position, vec3(-200.0, -200.0, 0.0));
    assert_eq!(system.wall_particles[39].position, vec3(190.0, -200.0, 0.0));
    assert_eq!(system.wall_particles[40].position, vec3(-200.0, -190.0, 0.0));
    assert_eq!(system.wall_particles[799].position, vec3(190.0, -10.0, 0.0));
    for (index, p) in system.wall_particles.iter().enumerate() {
        assert_eq!(p.position, grid_position(index));
        assert_eq!(p.original_position, p.position);
        assert_eq!(p.velocity, vec3(0.0, 0.0, 0.0));
        assert_eq!(p.diff, vec3(0.0, 0.0, 0.0));
        assert_eq!(p.radius, Real(5.0));
        assert_eq!(p.created_time, 77);
        assert!(!p.delete_flag);
    }
}

#[test]
fn frame_on_the_reference_wall_applies_spring_gravity_only() {
    let mut system: PhysicsSystem<Real> = PhysicsSystem::new(0);
    for p in system.wall_particles.iter_mut() {
        p.position.z = Real(2.0);
        p.position.x = Real(p.position.x.0 + 1.0);
    }
    let before = system.wall_particles.clone();
    assert_eq!(system.update(16), Ok(()));
    assert_eq!(system.wall_particles.len(), 800);
    for (index, p) in system.wall_particles.iter().enumerate() {
        let start = before[index];
        let spring = vec3(
            (start.original_position.x.0 - start.position.x.0) * 0.0005,
            (start.original_position.y.0 - start.position.y.0) * 0.0005,
            (start.original_position.z.0 - start.position.z.0) * 0.0005,
        );
        let scale = 1.0 / 440.0;
        let rest = vec3(0.0 * scale, 0.0 * scale, 0.0 * scale);
        assert_eq!(p.velocity, vec3(0.0, 0.0, 0.0) + spring + rest);
        assert_eq!(p.velocity, vec3(-0.0005, 0.0, -0.001));
        assert_eq!(p.position, start.position + p.velocity);
        assert_eq!(p.original_position, grid_position(index));
        assert_eq!(p.diff, vec3(0.0, 0.0, 0.0));
    }
}

fn window_sum(walls: &[Particle<Real>], row: i64, col: i64, d: i64) -> Vec3<Real> {
    let mut sum = vec3(0.0, 0.0, 0.0);
    for j in -d..=d {
        for i in -d..=d {
            let index = ((row + j) * 40 + (col + i)) as usize;
            sum = sum + walls[index].position;
        }
    }
    sum
}

#[test]
fn frame_with_a_small_radius_averages_the_interior_only() {
    let mut system: PhysicsSystem<Real> = PhysicsSystem::new(0);
    system.d = 2;
    for (index, p) in system.wall_particles.iter_mut().enumerate() {
        p.position.z = Real(0.25 * (index % 7) as f64);
    }
    let before = system.wall_particles.clone();
    assert_eq!(system.update(16), Ok(()));
    let scale = 1.0 / (4.0 * 2.0 * (2.0 + 1.0));
    let mut interior = 0;
    for (index, p) in system.wall_particles.iter().enumerate() {
        let start = before[index];
        let row = (index / 40) as i64;
        let col = (index % 40) as i64;
        let mut spring = vec3(0.0, 0.0, 0.0);
        spring.sub(&start.original_position, &start.position);
        spring.mult(Real(0.0005));
        let with_spring = start.velocity + spring;
        if 2 <= row && row < 18 && 2 <= col && col < 38 {
            interior += 1;
            let averaged = window_sum(&before, row, col, 2) * Real(scale);
            assert_eq!(p.velocity, with_spring + averaged);
            assert!(p.velocity != with_spring);
        } else {
            let nothing = vec3(0.0, 0.0, 0.0) * Real(scale);
            assert_eq!(p.velocity, with_spring + nothing);
        }
        assert_eq!(p.diff, vec3(0.0, 0.0, 0.0));
    }
    assert_eq!(interior, 16 * 36);
    let centre = &system.wall_particles[5 * 40 + 7];
    assert_eq!(centre.velocity.x, Real(25.0 * -130.0 * (1.0 / 24.0)));
    assert_eq!(centre.velocity.y, Real(25.0 * -150.0 * (1.0 / 24.0)));
}

#[test]
fn neighbor_pass_alone_fills_diff_of_interior_cells() {
    let mut system: PhysicsSystem<Real> = PhysicsSystem::new(0);
    system.d = 9;
    let before = system.wall_particles.clone();
    system.update_wall_module_forces();
    for (index, p) in system.wall_particles.iter().enumerate() {
        let row = (index / 40) as i64;
        let col = (index % 40) as i64;
        if 9 <= row && row < 11 && 9 <= col && col < 31 {
            assert_eq!(p.diff, window_sum(&before, row, col, 9));
            assert_eq!(p.diff, vec3(361.0 * p.position.x.0, 361.0 * p.position.y.0, 0.0));
        } else {
            assert_eq!(p.diff, vec3(0.0, 0.0, 0.0));
        }
        assert_eq!(p.position, before[index].position);
        assert_eq!(p.velocity, before[index].velocity);
    }
}

#[test]
fn neighbor_pass_passes_over_cells_without_a_particle() {
    let mut system: PhysicsSystem<Real> = PhysicsSystem::new(0);
    system.d = 1;
    system.wall_particles.truncate(3 * 40 + 5);
    system.update_wall_module_forces();
    // Row 1 has its whole window; row 2 lacks the cells of row 3 from column 5 on.
    let full = &system.wall_particles[40 + 10];
    assert_eq!(full.diff, vec3(9.0 * full.position.x.0, 9.0 * full.position.y.0, 0.0));
    let cut = &system.wall_particles[2 * 40 + 10];
    assert_eq!(cut.diff, vec3(6.0 * cut.position.x.0, 3.0 * -190.0 + 3.0 * -180.0, 0.0));
    let edge = &system.wall_particles[2 * 40 + 4];
    assert_eq!(
        edge.diff,
        vec3(
            3.0 * -170.0 + 3.0 * -160.0 + 2.0 * -150.0,
            3.0 * -190.0 + 3.0 * -180.0 + 2.0 * -170.0,
            0.0
        )
    );
    assert_eq!(system.wall_particles.len(), 125);
}

#[test]
fn neighbor_pass_with_odd_parameters_changes_no_position() {
    let odd = [(0, 40, 1), (20, 0, 1), (-3, 40, 1), (20, 40, 0), (20, 40, -1), (2000, 40, 3)];
    for (rows, cols, d) in odd {
        let mut system: PhysicsSystem<Real> = PhysicsSystem::new(0);
        system.wall_particles.truncate(200);
        system.sphere_height_number = rows;
        system.sphere_width_number = cols;
        system.d = d;
        let before = system.wall_particles.clone();
        system.update_wall_module_forces();
        assert_eq!(system.wall_particles.len(), 200);
        for (index, p) in system.wall_particles.iter().enumerate() {
            assert_eq!(p.position, before[index].position);
            assert_eq!(p.velocity, before[index].velocity);
        }
    }
}

#[test]
fn neighbor_pass_with_radius_zero_adds_the_own_position() {
    let mut system: PhysicsSystem<Real> = PhysicsSystem::new(0);
    system.d = 0;
    system.update_wall_module_forces();
    for p in system.wall_particles.iter() {
        assert_eq!(p.diff, p.position);
    }
}

#[test]
fn burst_throws_the_whole_batch_near_the_hand() {
    let mut system: PhysicsSystem<Real> = PhysicsSystem::new(0);
    let hand_position = vec3(10.0, -20.0, -80.0);
    let hand_velocity = vec3(3.0, 0.0, -4.0);
    assert_eq!(hand_velocity.magnitude(), Real(5.0));
    system.create_force_particles(&hand_position, &hand_velocity, Real(10.0), 1234);
    assert_eq!(system.force_particles.len(), 500);
    assert_eq!(system.wall_particles.len(), 800);
    let mut distinct = false;
    for p in system.force_particles.iter() {
        assert!((p.position.x.0 - 10.0).abs() <= 0.5);
        assert!((p.position.y.0 + 20.0).abs() <= 0.5);
        assert!((p.position.z.0 + 80.0).abs() <= 0.5);
        assert!((p.position.x.0 - 10.0).abs() <= 0.25);
        assert_eq!(p.velocity, vec3(0.0 + 3.0 * 0.4, 0.0, 0.0 - 4.0 * 0.4));
        assert_eq!(p.radius, Real(1.0));
        assert_eq!(p.created_time, 1234);
        assert_eq!(p.original_position, p.position);
        assert_eq!(p.diff, vec3(0.0, 0.0, 0.0));
        if p.position != system.force_particles[0].position {
            distinct = true;
        }
    }
    assert!(distinct);
    system.create_force_particles(&hand_position, &hand_velocity, Real(10.0), 1300);
    assert_eq!(system.force_particles.len(), 1000);
}

#[test]
fn slow_hand_throws_nothing() {
    let mut system: PhysicsSystem<Real> = PhysicsSystem::new(0);
    let hand_position = vec3(0.0, 0.0, 0.0);
    system.create_force_particles(&hand_position, &vec3(0.0, 0.0, 0.0), Real(10.0), 5);
    assert_eq!(system.force_particles.len(), 0);
    system.create_force_particles(&hand_position, &vec3(0.001, 0.0, 0.0), Real(10.0), 5);
    assert_eq!(system.force_particles.len(), 0);
    system.create_force_particles(&hand_position, &vec3(0.0005, 0.0005, 0.0005), Real(10.0), 5);
    assert_eq!(system.force_particles.len(), 0);
    let draws = vec![(1, 2, 3), (4, 5, 6)];
    let slow = vec3(0.001, 0.0, 0.0);
    system.create_force_particles_from(&hand_position, &slow, Real(10.0), &draws, 5);
    assert_eq!(system.force_particles.len(), 0);
    let fast = vec3(0.0011, 0.0, 0.0);
    system.create_force_particles_from(&hand_position, &fast, Real(10.0), &draws, 5);
    assert_eq!(system.force_particles.len(), 2);
}

#[test]
fn given_draws_place_the_particles() {
    let mut system: PhysicsSystem<Real> = PhysicsSystem::new(0);
    system.make_force_num = 7;
    let hand_position = vec3(1.0, 2.0, 3.0);
    let hand_velocity = vec3(0.0, 2.0, 0.0);
    let draws = vec![(0, 1 << 63, u64::MAX), (1 << 62, 3 << 62, 1 << 11)];
    system.create_force_particles_from(&hand_position, &hand_velocity, Real(10.0), &draws, 42);
    assert_eq!(system.force_particles.len(), 2);
    let first = system.force_particles[0];
    assert_eq!(first.position.x, Real(1.0 + 10.0 * (0.0 - 0.5) * 0.05));
    assert_eq!(first.position.x, Real(0.75));
    assert_eq!(first.position.y, Real(2.0));
    let top = 1.0 - 1.0 / 9007199254740992.0;
    assert_eq!(first.position.z, Real(3.0 + 10.0 * (top - 0.5) * 0.05));
    assert!(first.position.z.0 <= 3.25);
    let second = system.force_particles[1];
    assert_eq!(second.position.x, Real(1.0 + 10.0 * (0.25 - 0.5) * 0.05));
    assert_eq!(second.position.y, Real(2.0 + 10.0 * (0.75 - 0.5) * 0.05));
    assert_eq!(second.position.z, Real(3.0 + 10.0 * (1.0 / 9007199254740992.0 - 0.5) * 0.05));
    for p in system.force_particles.iter() {
        assert_eq!(p.velocity, vec3(0.0, 0.8, 0.0));
        assert_eq!(p.radius, Real(1.0));
        assert_eq!(p.created_time, 42);
        assert_eq!(p.original_position, p.position);
    }
}

#[test]
fn old_transient_is_removed_without_a_collision() {
    let mut system: PhysicsSystem<Real> = PhysicsSystem::new(0);
    system.force_particles.push(transient(0.0, 500.0, 0.0, vec3(0.0, 0.0, 0.0), 1000));
    assert_eq!(FORCE_LIFETIME_MS, 5000);
    assert_eq!(system.update(7000), Ok(()));
    assert_eq!(system.force_particles.len(), 0);
    assert_eq!(system.wall_particles.len(), 800);
}

#[test]
fn transient_lives_until_its_time_is_over() {
    let mut system: PhysicsSystem<Real> = PhysicsSystem::new(0);
    system.force_particles.push(transient(0.0, 500.0, 0.0, vec3(1.0, 0.0, 0.0), 1000));
    system.force_particles.push(transient(0.0, 600.0, 0.0, vec3(0.0, 1.0, 0.0), 1001));
    assert_eq!(system.update(6000), Ok(()));
    assert_eq!(system.force_particles.len(), 2);
    assert_eq!(system.force_particles[0].position, vec3(1.0, 500.0, 0.0));
    assert_eq!(system.update(6001), Ok(()));
    assert_eq!(system.force_particles.len(), 1);
    assert_eq!(system.force_particles[0].created_time, 1001);
    assert_eq!(system.force_particles[0].position, vec3(0.0, 602.0, 0.0));
    assert_eq!(system.update(6002), Ok(()));
    assert_eq!(system.force_particles.len(), 0);
}

#[test]
fn remove_expired_forces_keeps_the_young_in_order() {
    let mut system: PhysicsSystem<Real> = PhysicsSystem::new(0);
    for created in [10, 3000, 20, 4000, 30, 2001] {
        system.force_particles.push(transient(0.0, 0.0, 0.0, vec3(0.0, 0.0, 0.0), created));
    }
    assert_eq!(system.remove_expired_forces(7000), Ok(()));
    let left: Vec<u64> = system.force_particles.iter().map(|p| p.created_time).collect();
    assert_eq!(left, vec![3000, 4000, 2001]);
    assert_eq!(system.remove_expired_forces(7001), Ok(()));
    let left: Vec<u64> = system.force_particles.iter().map(|p| p.created_time).collect();
    assert_eq!(left, vec![3000, 4000, 2001]);
    assert_eq!(system.remove_expired_forces(7002), Ok(()));
    let left: Vec<u64> = system.force_particles.iter().map(|p| p.created_time).collect();
    assert_eq!(left, vec![3000, 4000]);
}

#[test]
fn transient_over_two_wall_particles_strikes_the_first_only() {
    let mut system: PhysicsSystem<Real> = PhysicsSystem::new(0);
    system.force_particles.push(transient(-195.0, -200.0, 0.0, vec3(0.5, 0.0, 0.25), 0));
    let moved = transient(-194.5, -200.0, 0.25, vec3(0.5, 0.0, 0.25), 0);
    assert!(moved.collides_with(&system.wall_particles[0]));
    assert!(moved.collides_with(&system.wall_particles[1]));
    assert_eq!(system.update(16), Ok(()));
    assert_eq!(system.force_particles.len(), 0);
    assert_eq!(system.wall_particles[0].velocity, vec3(0.5, 0.0, 0.25));
    for p in system.wall_particles.iter().skip(1) {
        assert_eq!(p.velocity, vec3(0.0, 0.0, 0.0));
    }
    assert_eq!(system.wall_particles[0].position, vec3(-200.0, -200.0, 0.0));
}

#[test]
fn collisions_are_resolved_in_the_order_of_the_transients() {
    let mut system: PhysicsSystem<Real> = PhysicsSystem::new(0);
    system.m1 = Real(3.0);
    system.m2 = Real(1.0);
    system.force_particles.push(transient(-200.0, -200.0, 2.0, vec3(1.0, 0.0, 0.0), 0));
    system.force_particles.push(transient(0.0, 900.0, 0.0, vec3(9.0, 9.0, 9.0), 0));
    system.force_particles.push(transient(-200.0, -200.0, -2.0, vec3(0.0, 2.0, 0.0), 0));
    system.handle_collisions();
    assert_eq!(system.force_particles.len(), 1);
    assert_eq!(system.force_particles[0].position, vec3(0.0, 900.0, 0.0));
    // First: v = 0 + (2 * 0 + 2 * (1, 0, 0)) / 4, then v = v + (2 * v + 2 * (0, 2, 0)) / 4.
    let after_first = vec3(0.5, 0.0, 0.0);
    let after_second = vec3(0.5 + (2.0 * 0.5 + 0.0) * 0.25, 0.0 + (0.0 + 4.0) * 0.25, 0.0);
    assert_eq!(after_second, vec3(0.75, 1.0, 0.0));
    assert_eq!(system.wall_particles[0].velocity, after_second);
    assert!(after_first != after_second);
    for p in system.wall_particles.iter().skip(1) {
        assert_eq!(p.velocity, vec3(0.0, 0.0, 0.0));
    }
}

#[test]
fn first_collision_finds_the_first_overlap() {
    let mut system: PhysicsSystem<Real> = PhysicsSystem::new(0);
    let at = |x: f64, y: f64, z: f64| transient(x, y, z, vec3(0.0, 0.0, 0.0), 0);
    assert_eq!(system.first_collision(&at(-195.0, -200.0, 0.0)), Some(0));
    assert_eq!(system.first_collision(&at(-187.0, -200.0, 0.0)), Some(1));
    assert_eq!(system.first_collision(&at(190.0, -10.0, 5.9)), Some(799));
    assert_eq!(system.first_collision(&at(190.0, -10.0, 6.0)), None);
    assert_eq!(system.first_collision(&at(0.0, 100.0, 0.0)), None);
    system.wall_particles.clear();
    assert_eq!(system.first_collision(&at(-195.0, -200.0, 0.0)), None);
}

#[test]
fn clock_that_went_backwards_stops_the_frame() {
    let mut system: PhysicsSystem<Real> = PhysicsSystem::new(0);
    for p in system.wall_particles.iter_mut() {
        p.position.z = Real(1.0);
    }
    system.force_particles.push(transient(0.0, 500.0, 0.0, vec3(1.0, 0.0, 0.0), 10));
    system.force_particles.push(transient(0.0, 500.0, 0.0, vec3(1.0, 0.0, 0.0), 300));
    system.force_particles.push(transient(0.0, 500.0, 0.0, vec3(1.0, 0.0, 0.0), 200));
    let walls = system.wall_particles.clone();
    let forces = system.force_particles.clone();
    assert_eq!(system.check_clock(100), Err(ClockError::WentBackwards { earlier: 300, now: 100 }));
    assert_eq!(system.update(100), Err(ClockError::WentBackwards { earlier: 300, now: 100 }));
    assert_eq!(system.wall_particles, walls);
    assert_eq!(system.force_particles, forces);
    assert_eq!(
        system.remove_expired_forces(250),
        Err(ClockError::WentBackwards { earlier: 300, now: 250 })
    );
    assert_eq!(system.force_particles, forces);
    assert_eq!(system.check_clock(300), Ok(()));
    assert_eq!(system.update(300), Ok(()));
    assert_eq!(system.force_particles.len(), 3);
}

#[test]
fn frame_clears_diff_and_keeps_the_anchors() {
    let mut system: PhysicsSystem<Real> = PhysicsSystem::new(5);
    for p in system.wall_particles.iter_mut() {
        p.diff = vec3(440.0, 0.0, 880.0);
        p.position.z = Real(-1.0);
        p.velocity = vec3(3.0, 3.0, 3.0);
    }
    system.force_particles.push(transient(0.0, 500.0, 0.0, vec3(1.0, 0.0, 0.0), 10));
    system.force_particles[0].diff = vec3(1.0, 1.0, 1.0);
    assert_eq!(system.update(20), Ok(()));
    for (index, p) in system.wall_particles.iter().enumerate() {
        assert_eq!(p.diff, vec3(0.0, 0.0, 0.0));
        assert_eq!(p.original_position, grid_position(index));
        assert_eq!(p.radius, Real(5.0));
        assert_eq!(p.created_time, 5);
        // Below the floor: back on the anchor and at rest, then the neighbour term, then the move.
        let scale = 1.0 / 440.0;
        assert_eq!(p.velocity, vec3(0.0 + 440.0 * scale, 0.0, 0.0 + 880.0 * scale));
        assert_eq!(p.position, grid_position(index) + p.velocity);
    }
    assert_eq!(system.force_particles[0].diff, vec3(0.0, 0.0, 0.0));
}

#[test]
fn all_particles_are_the_wall_then_the_transients() {
    let mut system: PhysicsSystem<Real> = PhysicsSystem::new(0);
    system.force_particles.push(transient(1.0, 2.0, 3.0, vec3(0.0, 0.0, 0.0), 1));
    system.force_particles.push(transient(4.0, 5.0, 6.0, vec3(0.0, 0.0, 0.0), 2));
    let all = system.get_all_particles();
    assert_eq!(all.len(), 802);
    for index in 0..800 {
        assert_eq!(*all[index], system.wall_particles[index]);
    }
    assert_eq!(all[800].position, vec3(1.0, 2.0, 3.0));
    assert_eq!(all[801].position, vec3(4.0, 5.0, 6.0));
    assert_eq!(system.wall_particles.len(), 800);
    assert_eq!(system.force_particles.len(), 2);
}

#[test]
fn wall_and_force_integration_alone() {
    let mut system: PhysicsSystem<Real> = PhysicsSystem::new(0);
    system.wall_particles.truncate(2);
    system.wall_particles[0].position = vec3(-198.0, -200.0, 4.0);
    system.wall_particles[0].diff = vec3(440.0, 440.0, 440.0);
    system.wall_particles[1].position = vec3(-190.0, -200.0, -4.0);
    system.wall_particles[1].velocity = vec3(1.0, 1.0, 1.0);
    system.force_particles.push(transient(1.0, 2.0, 3.0, vec3(0.5, 0.5, 0.5), 1));
    system.update_wall_physics();
    let scale = 1.0 / 440.0;
    assert_eq!(
        system.wall_particles[0].velocity,
        vec3(
            -2.0 * 0.0005 + 440.0 * scale,
            0.0 * 0.0005 + 440.0 * scale,
            -4.0 * 0.0005 + 440.0 * scale
        )
    );
    assert_eq!(
        system.wall_particles[0].position,
        vec3(-198.0, -200.0, 4.0) + system.wall_particles[0].velocity
    );
    assert_eq!(system.wall_particles[1].velocity, vec3(0.0, 0.0, 0.0));
    assert_eq!(system.wall_particles[1].position, vec3(-190.0, -200.0, 0.0));
    assert_eq!(system.force_particles[0].position, vec3(1.0, 2.0, 3.0));
    system.update_force_physics();
    assert_eq!(system.force_particles[0].position, vec3(1.5, 2.5, 3.5));
    assert_eq!(system.force_particles[0].velocity, vec3(0.5, 0.5, 0.5));
    assert_eq!(system.wall_particles[1].position, vec3(-190.0, -200.0, 0.0));
}


fn some(x: f64, y: f64, z: f64) -> Option<Vec3<Real>> {
    Some(vec3(x, y, z))
}

#[test]
fn new_input_system_is_idle() {
    let system: InputSystem<Real> = InputSystem::new(1920, 1080, true);
    assert_eq!(system.body_joints, BodyJoints::default());
    assert_eq!(system.body_joints.right_hand, HandState::default());
    assert_eq!(system.body_joints.right_hand.position, vec3(0.0, 0.0, 0.0));
    assert_eq!(system.body_joints.right_hand.confidence, Real(0.0));
    assert!(!system.body_joints.right_hand.is_open);
    assert!(!system.body_joints.right_hand.is_tracked);
    assert!(!system.is_calibrated);
    assert_eq!(system.window_size, (1920, 1080));
    assert_eq!(system.last_update_time, 0);
    assert!(!system.mouse_pressed);
    assert!(system.use_pose_detection);
    let pointer: InputSystem<Real> = InputSystem::new(800, 600, false);
    assert!(!pointer.use_pose_detection);
}

#[test]
fn first_look_places_the_hands_and_keeps_their_velocity() {
    let mut system: InputSystem<Real> = InputSystem::new(1920, 1080, true);
    let r = system.update_body_joints_from_data(
        some(60.0, 20.0, -80.0),
        None,
        true,
        true,
        some(0.0, -50.0, -100.0),
        some(30.0, -40.0, -100.0),
        None,
        1000,
    );
    assert_eq!(r, Ok(()));
    let joints = system.body_joints;
    assert_eq!(joints.right_hand.position, vec3(60.0, 20.0, -80.0));
    assert_eq!(joints.right_hand.previous_position, vec3(0.0, 0.0, 0.0));
    assert_eq!(joints.right_hand.velocity, vec3(0.0, 0.0, 0.0));
    assert!(joints.right_hand.is_tracked);
    assert!(joints.right_hand.is_open);
    assert!(!joints.left_hand.is_tracked);
    assert!(!joints.left_hand.is_open);
    assert_eq!(joints.neck, vec3(0.0, -50.0, -100.0));
    assert_eq!(joints.shoulder_right, vec3(30.0, -40.0, -100.0));
    assert_eq!(joints.shoulder_left, vec3(0.0, 0.0, 0.0));
    assert_eq!(joints.spine_shoulder, vec3(0.0, -20.0, -100.0));
    assert_eq!(joints.spine_base, vec3(0.0, 130.0, -100.0));
    assert_eq!(system.last_update_time, 1000);
}

#[test]
fn later_look_derives_the_velocity_from_the_way_and_the_time() {
    let mut system: InputSystem<Real> = InputSystem::new(1920, 1080, true);
    let first = system.update_body_joints_from_data(
        some(60.0, 20.0, -80.0), some(-60.0, 20.0, -80.0), false, false, None, None, None, 1000,
    );
    assert_eq!(first, Ok(()));
    let second = system.update_body_joints_from_data(
        some(61.0, 18.0, -80.0), some(-60.0, 20.5, -80.0), true, false, None, None, None, 1250,
    );
    assert_eq!(second, Ok(()));
    let per_second = 1.0 / (250.0 / 1000.0);
    assert_eq!(
        system.body_joints.right_hand.velocity,
        vec3(1.0 * per_second, -2.0 * per_second, 0.0)
    );
    assert_eq!(system.body_joints.right_hand.velocity, vec3(4.0, -8.0, 0.0));
    assert_eq!(system.body_joints.right_hand.previous_position, vec3(60.0, 20.0, -80.0));
    assert!(system.body_joints.right_hand.is_open);
    assert_eq!(system.body_joints.left_hand.velocity, vec3(0.0, 2.0, 0.0));
    assert_eq!(system.body_joints.spine_shoulder, vec3(0.0, 0.0, 0.0));
    assert_eq!(system.last_update_time, 1250);
    // No time has passed: the position moves on, the velocity stays.
    let third = system.update_body_joints_from_data(
        some(70.0, 18.0, -80.0), None, true, false, None, None, None, 1250,
    );
    assert_eq!(third, Ok(()));
    assert_eq!(system.body_joints.right_hand.position, vec3(70.0, 18.0, -80.0));
    assert_eq!(system.body_joints.right_hand.velocity, vec3(4.0, -8.0, 0.0));
    assert!(!system.body_joints.left_hand.is_tracked);
    assert_eq!(system.body_joints.left_hand.position, vec3(-60.0, 20.5, -80.0));
}

#[test]
fn look_before_the_last_look_is_a_clock_error() {
    let mut system: InputSystem<Real> = InputSystem::new(1920, 1080, true);
    let first = system.update_body_joints_from_data(
        some(1.0, 1.0, 1.0), None, true, true, None, None, None, 500,
    );
    assert_eq!(first, Ok(()));
    let joints = system.body_joints;
    let r = system.update_body_joints_from_data(
        some(2.0, 2.0, 2.0), None, false, false, some(1.0, 1.0, 1.0), None, None, 499,
    );
    assert_eq!(r, Err(ClockError::WentBackwards { earlier: 500, now: 499 }));
    assert_eq!(system.body_joints, joints);
    assert_eq!(system.last_update_time, 500);
}

#[test]
fn update_follows_the_detector_only_where_it_is_in_use() {
    let reading = PoseReading {
        right_hand_pos: some(60.0, 20.0, -80.0),
        left_hand_pos: None,
        right_hand_open: true,
        left_hand_open: false,
        neck_pos: None,
        right_shoulder_pos: None,
        left_shoulder_pos: some(-30.0, -40.0, -100.0),
    };
    let mut pointer: InputSystem<Real> = InputSystem::new(1920, 1080, false);
    assert_eq!(pointer.update(Some(reading), 10), Ok(()));
    assert_eq!(pointer.body_joints, BodyJoints::default());
    assert_eq!(pointer.last_update_time, 0);
    let mut system: InputSystem<Real> = InputSystem::new(1920, 1080, true);
    assert_eq!(system.update(None, 10), Ok(()));
    assert_eq!(system.body_joints, BodyJoints::default());
    assert_eq!(system.last_update_time, 0);
    assert_eq!(system.update(Some(reading), 10), Ok(()));
    assert_eq!(system.body_joints.right_hand.position, vec3(60.0, 20.0, -80.0));
    assert_eq!(system.body_joints.shoulder_left, vec3(-30.0, -40.0, -100.0));
    assert_eq!(system.last_update_time, 10);
    assert_eq!(
        system.update(Some(reading), 9),
        Err(ClockError::WentBackwards { earlier: 10, now: 9 })
    );
}

#[test]
fn pointer_moves_the_right_hand() {
    let mut system: InputSystem<Real> = InputSystem::new(1920, 1080, false);
    system.update_mouse_position(Real(960.0), Real(540.0));
    assert_eq!(system.body_joints.right_hand.position, vec3(0.0, 0.0, -100.0));
    assert_eq!(system.body_joints.right_hand.velocity, vec3(0.0, 0.0, -1000.0));
    assert!(system.body_joints.right_hand.is_tracked);
    system.update_mouse_button(MouseButton::Left, ElementState::Pressed);
    system.update_mouse_position(Real(1440.0), Real(0.0));
    assert_eq!(system.body_joints.right_hand.position, vec3(50.0, -100.0, -50.0));
    assert_eq!(system.body_joints.right_hand.velocity, vec3(500.0, -1000.0, 500.0));
    system.update_mouse_position(Real(480.0), Real(1080.0));
    assert_eq!(
        system.body_joints.right_hand.position,
        vec3((480.0 / 1920.0 - 0.5) * 200.0, (1080.0 / 1080.0 - 0.5) * 200.0, -50.0)
    );
    let mut posed: InputSystem<Real> = InputSystem::new(1920, 1080, true);
    posed.update_mouse_position(Real(960.0), Real(540.0));
    assert_eq!(posed.body_joints, BodyJoints::default());
}

#[test]
fn left_button_opens_the_right_hand() {
    let mut system: InputSystem<Real> = InputSystem::new(1920, 1080, false);
    system.update_mouse_button(MouseButton::Right, ElementState::Pressed);
    system.update_mouse_button(MouseButton::Middle, ElementState::Pressed);
    system.update_mouse_button(MouseButton::Other(7), ElementState::Pressed);
    assert!(!system.mouse_pressed);
    assert!(!system.body_joints.right_hand.is_open);
    system.update_mouse_button(MouseButton::Left, ElementState::Pressed);
    assert!(system.mouse_pressed);
    assert!(system.body_joints.right_hand.is_open);
    system.update_mouse_button(MouseButton::Back, ElementState::Released);
    assert!(system.mouse_pressed);
    system.update_mouse_button(MouseButton::Left, ElementState::Released);
    assert!(!system.mouse_pressed);
    assert!(!system.body_joints.right_hand.is_open);
    let mut posed: InputSystem<Real> = InputSystem::new(1920, 1080, true);
    posed.update_mouse_button(MouseButton::Left, ElementState::Pressed);
    assert!(!posed.mouse_pressed);
    assert!(!posed.body_joints.right_hand.is_open);
}

#[test]
fn calibration_depends_on_the_source() {
    let mut posed: InputSystem<Real> = InputSystem::new(1920, 1080, true);
    assert_eq!(posed.calibrate(None), Calibration::NoDetector);
    assert!(!posed.is_calibrated);
    assert_eq!(posed.calibrate(Some(false)), Calibration::NotVisible);
    assert!(!posed.is_calibrated);
    assert_eq!(posed.calibrate(Some(true)), Calibration::Tracking);
    assert!(posed.is_calibrated);
    assert_eq!(posed.body_joints, BodyJoints::default());
    let mut pointer: InputSystem<Real> = InputSystem::new(1920, 1080, false);
    assert_eq!(pointer.calibrate(Some(false)), Calibration::Pointer);
    assert!(pointer.is_calibrated);
    assert_eq!(pointer.body_joints.spine_base, vec3(0.0, 0.0, 0.0));
    assert_eq!(pointer.body_joints.spine_shoulder, vec3(0.0, 50.0, 0.0));
    assert_eq!(pointer.body_joints.shoulder_right, vec3(30.0, 40.0, 0.0));
    assert_eq!(pointer.body_joints.left_hand.position, vec3(-50.0, 0.0, -100.0));
    assert_eq!(pointer.get_spread_distance(), Real((2500.0_f64 + 10000.0).sqrt()));
}

#[test]
fn right_hand_vector_needs_an_open_followed_fast_hand() {
    let mut system: InputSystem<Real> = InputSystem::new(1920, 1080, false);
    system.body_joints.right_hand.velocity = vec3(3.0, 0.0, 4.0);
    assert_eq!(system.get_right_hand_vector(), vec3(0.0, 0.0, 0.0));
    system.body_joints.right_hand.is_open = true;
    assert_eq!(system.get_right_hand_vector(), vec3(0.0, 0.0, 0.0));
    system.body_joints.right_hand.is_tracked = true;
    assert_eq!(system.get_right_hand_vector(), vec3(3.0 * 0.1, 0.0, 4.0 * 0.1));
    system.body_joints.right_hand.velocity = vec3(0.1, 0.0, 0.0);
    assert_eq!(system.get_right_hand_vector(), vec3(0.0, 0.0, 0.0));
    system.body_joints.right_hand.velocity = vec3(0.0, 0.11, 0.0);
    assert_eq!(system.get_right_hand_vector(), vec3(0.0, 0.11 * 0.1, 0.0));
    system.body_joints.right_hand.is_open = false;
    assert_eq!(system.get_right_hand_vector(), vec3(0.0, 0.0, 0.0));
}

#[test]
fn spread_distance_is_the_way_from_the_left_hand_to_the_spine() {
    let mut system: InputSystem<Real> = InputSystem::new(1920, 1080, true);
    assert_eq!(system.get_spread_distance(), Real(0.0));
    system.body_joints.spine_base = vec3(1.0, 2.0, 3.0);
    system.body_joints.left_hand.position = vec3(4.0, 6.0, 15.0);
    assert_eq!(system.get_spread_distance(), Real(13.0));
}

#[test]
fn resize_takes_the_new_window() {
    let mut system: InputSystem<Real> = InputSystem::new(1920, 1080, false);
    system.resize(200, 100);
    assert_eq!(system.window_size, (200, 100));
    system.update_mouse_position(Real(50.0), Real(100.0));
    assert_eq!(system.body_joints.right_hand.position, vec3(-50.0, 100.0, -100.0));
}

#[test]
fn detection_status_names_the_source() {
    let mut system: InputSystem<Real> = InputSystem::new(1920, 1080, true);
    assert_eq!(system.get_detection_status(None), "📸 Camera: Not Available");
    assert_eq!(system.get_detection_status(Some(false)), "📸 Camera: Active | 👤 Pose: Not Detected");
    assert_eq!(
        system.get_detection_status(Some(true)),
        "📸 Camera: Active | 👤 Pose: Detected | ✋ Right Hand: Lost | 🤚 Left Hand: Lost"
    );
    system.body_joints.left_hand.is_tracked = true;
    assert_eq!(
        system.get_detection_status(Some(true)),
        "📸 Camera: Active | 👤 Pose: Detected | ✋ Right Hand: Lost | 🤚 Left Hand: Tracked"
    );
    system.body_joints.right_hand.is_tracked = true;
    assert_eq!(
        system.get_detection_status(Some(true)),
        "📸 Camera: Active | 👤 Pose: Detected | ✋ Right Hand: Tracked | 🤚 Left Hand: Tracked"
    );
    system.body_joints.left_hand.is_tracked = false;
    assert_eq!(
        system.get_detection_status(Some(true)),
        "📸 Camera: Active | 👤 Pose: Detected | ✋ Right Hand: Tracked | 🤚 Left Hand: Lost"
    );
    for text in [
        system.get_detection_status(Some(true)),
        format!(
            "📸 Camera: Active | 👤 Pose: Detected | ✋ Right Hand: {} | 🤚 Left Hand: {}",
            "Tracked", "Lost"
        ),
    ] {
        assert_eq!(text, system.get_detection_status(Some(true)));
    }
    let pointer: InputSystem<Real> = InputSystem::new(1920, 1080, false);
    assert_eq!(pointer.get_detection_status(Some(true)), "🖱️ Mouse Input Mode");
    assert_eq!(pointer.get_detection_status(None), "🖱️ Mouse Input Mode");
}

#[test]
fn hand_sample_carries_the_right_hand() {
    let mut system: InputSystem<Real> = InputSystem::new(1920, 1080, false);
    system.body_joints.right_hand.velocity = vec3(30.0, 0.0, 40.0);
    system.body_joints.right_hand.position = vec3(1.0, 2.0, 3.0);
    system.body_joints.right_hand.is_open = true;
    system.body_joints.right_hand.is_tracked = true;
    let before = system.get_hand_sample();
    assert_eq!(
        before,
        HandSample {
            position: None,
            velocity: vec3(30.0 * 0.1, 0.0, 40.0 * 0.1),
            is_open: true,
            spread_distance: Real(0.0),
        }
    );
    assert_eq!(system.calibrate(None), Calibration::Pointer);
    let after = system.get_hand_sample();
    assert_eq!(after.position, Some(vec3(1.0, 2.0, 3.0)));
    assert_eq!(after.velocity, vec3(3.0, 0.0, 4.0));
    assert!(after.is_open);
    assert_eq!(after.spread_distance, Real((2500.0_f64 + 10000.0).sqrt()));
}

#[test]
fn physics_acts_on_an_open_fast_hand_with_a_position_only() {
    let mut system: PhysicsSystem<Real> = PhysicsSystem::new(0);
    let throwing = HandSample {
        position: Some(vec3(1.0, 2.0, 3.0)),
        velocity: vec3(3.0, 0.0, 4.0),
        is_open: true,
        spread_distance: Real(10.0),
    };
    system.apply_hand_sample(&HandSample { position: None, ..throwing }, 5);
    assert_eq!(system.force_particles.len(), 0);
    system.apply_hand_sample(&HandSample { is_open: false, ..throwing }, 5);
    assert_eq!(system.force_particles.len(), 0);
    system.apply_hand_sample(&HandSample { velocity: vec3(0.001, 0.0, 0.0), ..throwing }, 5);
    assert_eq!(system.force_particles.len(), 0);
    system.apply_hand_sample(&throwing, 5);
    assert_eq!(system.force_particles.len(), 500);
    for p in system.force_particles.iter() {
        assert!((p.position.x.0 - 1.0).abs() <= 0.25);
        assert!((p.position.y.0 - 2.0).abs() <= 0.25);
        assert!((p.position.z.0 - 3.0).abs() <= 0.25);
        assert_eq!(p.velocity, vec3(3.0 * 0.4, 0.0, 4.0 * 0.4));
        assert_eq!(p.created_time, 5);
    }
    let far = HandSample { position: Some(vec3(1.0e9, -1.0e9, 1.0e12)), ..throwing };
    system.apply_hand_sample(&far, 6);
    assert_eq!(system.force_particles.len(), 1000);
    assert_eq!(system.wall_particles.len(), 800);
}

#[test]
fn frame_without_a_reading_of_the_clock_is_an_error() {
    let mut system: PhysicsSystem<Real> = PhysicsSystem::new(0);
    for p in system.wall_particles.iter_mut() {
        p.position.z = Real(1.0);
    }
    system.force_particles.push(transient(0.0, 500.0, 0.0, vec3(1.0, 0.0, 0.0), 10));
    let walls = system.wall_particles.clone();
    let forces = system.force_particles.clone();
    assert_eq!(system.update_at(None), Err(ClockError::Unavailable));
    assert_eq!(system.wall_particles, walls);
    assert_eq!(system.force_particles, forces);
    assert_eq!(system.update_at(Some(9)), Err(ClockError::WentBackwards { earlier: 10, now: 9 }));
    assert_eq!(system.force_particles, forces);
    assert_eq!(system.update_at(Some(5011)), Ok(()));
    assert_eq!(system.force_particles.len(), 0);
    assert_eq!(system.wall_particles[0].velocity, vec3(0.0, 0.0, -0.0005));
}

/// A particle of the direct computation below: plain doubles, no library.
#[derive(Clone, Copy)]
struct Plain {
    position: [f64; 3],
    velocity: [f64; 3],
    diff: [f64; 3],
    anchor: [f64; 3],
    radius: f64,
    created: u64,
}

fn plain_overlap(a: &Plain, b: &Plain) -> bool {
    let dx = a.position[0] - b.position[0];
    let dy = a.position[1] - b.position[1];
    let dz = a.position[2] - b.position[2];
    let reach = a.radius + b.radius;
    dx * dx + dy * dy + dz * dz < reach * reach
}

/// One frame, written out on plain doubles.
///
/// Returns how many transient particles met the wall.
fn plain_frame(
    walls: &mut Vec<Plain>,
    forces: &mut Vec<Plain>,
    d: i64,
    m1: f64,
    m2: f64,
    now: u64,
) -> usize {
    let before = walls.clone();
    for row in d..20 - d {
        for col in d..40 - d {
            let mut sum = [0.0; 3];
            for j in -d..=d {
                for i in -d..=d {
                    let at = ((row + j) * 40 + (col + i)) as usize;
                    for axis in 0..3 {
                        sum[axis] += before[at].position[axis];
                    }
                }
            }
            for axis in 0..3 {
                walls[(row * 40 + col) as usize].diff[axis] += sum[axis];
            }
        }
    }
    let scale = 1.0 / (4.0 * d as f64 * (d as f64 + 1.0));
    for p in walls.iter_mut() {
        if p.position[2] < 0.0 {
            p.position = p.anchor;
            p.velocity = [0.0; 3];
        } else {
            for axis in 0..3 {
                p.velocity[axis] += (p.anchor[axis] - p.position[axis]) * 0.0005;
            }
        }
        for axis in 0..3 {
            p.diff[axis] *= scale;
            p.velocity[axis] += p.diff[axis];
        }
        for axis in 0..3 {
            p.position[axis] += p.velocity[axis];
        }
        p.diff = [0.0; 3];
    }
    for f in forces.iter_mut() {
        for axis in 0..3 {
            f.position[axis] += f.velocity[axis];
        }
        f.diff = [0.0; 3];
    }
    let mut left = Vec::new();
    let mut hits = 0;
    for f in forces.iter() {
        match walls.iter().position(|w| plain_overlap(f, w)) {
            Some(hit) => {
                hits += 1;
                let a = 1.0 / (m1 + m2);
                for axis in 0..3 {
                    let own = walls[hit].velocity[axis] * (m1 - m2);
                    let taken = f.velocity[axis] * (2.0 * m2);
                    walls[hit].velocity[axis] += (own + taken) * a;
                }
            }
            None => left.push(*f),
        }
    }
    left.retain(|f| !(now - f.created > 5000));
    *forces = left;
    hits
}

fn plain_of(p: &Particle<Real>) -> Plain {
    Plain {
        position: [p.position.x.0, p.position.y.0, p.position.z.0],
        velocity: [p.velocity.x.0, p.velocity.y.0, p.velocity.z.0],
        diff: [p.diff.x.0, p.diff.y.0, p.diff.z.0],
        anchor: [p.original_position.x.0, p.original_position.y.0, p.original_position.z.0],
        radius: p.radius.0,
        created: p.created_time,
    }
}

fn assert_same(library: &[Particle<Real>], plain: &[Plain]) {
    assert_eq!(library.len(), plain.len());
    for (p, q) in library.iter().zip(plain.iter()) {
        let mine = plain_of(p);
        assert_eq!(mine.position.map(f64::to_bits), q.position.map(f64::to_bits));
        assert_eq!(mine.velocity.map(f64::to_bits), q.velocity.map(f64::to_bits));
        assert_eq!(mine.diff.map(f64::to_bits), q.diff.map(f64::to_bits));
        assert_eq!(mine.anchor.map(f64::to_bits), q.anchor.map(f64::to_bits));
        assert_eq!(mine.radius.to_bits(), q.radius.to_bits());
        assert_eq!(mine.created, q.created);
    }
}

#[test]
fn frames_agree_bit_for_bit_with_a_direct_computation() {
    let mut system: PhysicsSystem<Real> = PhysicsSystem::new(0);
    system.d = 3;
    system.m1 = Real(2.5);
    system.m2 = Real(0.75);
    for (index, p) in system.wall_particles.iter_mut().enumerate() {
        p.position.z = Real(0.125 * (index % 5) as f64 - 0.125);
        p.velocity.x = Real(0.01 * (index % 3) as f64);
    }
    let mut seed: u64 = 0x9e37_79b9_7f4a_7c15;
    let mut next = || {
        seed ^= seed << 13;
        seed ^= seed >> 7;
        seed ^= seed << 17;
        seed
    };
    let mut walls: Vec<Plain> = system.wall_particles.iter().map(plain_of).collect();
    let mut forces: Vec<Plain> = Vec::new();
    let mut hits = 0;
    let mut thrown = 0;
    let mut most = 0;
    for frame in 0..40u64 {
        let now = 100 + 400 * frame;
        if frame % 4 == 0 {
            let draws: Vec<(u64, u64, u64)> = (0..25).map(|_| (next(), next(), next())).collect();
            // Every other burst starts over the lowest row of the wall, the others far from it.
            let x = -200.0 + 2.5 * frame as f64;
            let y = if frame % 8 == 0 { -200.0 } else { 100.0 };
            let hand = vec3(x, y, 4.0);
            let push = vec3(0.5, -0.25, -1.5);
            system.create_force_particles_from(&hand, &push, Real(80.0), &draws, now);
            thrown += draws.len();
            for (a, b, c) in draws {
                let unit = |bits: u64| (bits >> 11) as f64 * (1.0 / 9007199254740992.0);
                let jitter = |bits: u64| 80.0 * (unit(bits) - 0.5) * 0.05;
                let position = [x + jitter(a), y + jitter(b), 4.0 + jitter(c)];
                forces.push(Plain {
                    position,
                    velocity: [0.0 + 0.5 * 0.4, 0.0 + -0.25 * 0.4, 0.0 + -1.5 * 0.4],
                    diff: [0.0; 3],
                    anchor: position,
                    radius: 1.0,
                    created: now,
                });
            }
        }
        assert_eq!(system.update(now), Ok(()));
        hits += plain_frame(&mut walls, &mut forces, 3, 2.5, 0.75, now);
        assert_same(&system.wall_particles, &walls);
        assert_same(&system.force_particles, &forces);
        most = most.max(forces.len());
    }
    // The run has seen all of it: collisions, transients that lived on, and transients that
    // were removed for their age.
    assert_eq!(thrown, 250);
    assert!(hits > 50);
    assert_eq!(most, 50);
    assert!(hits + forces.len() < thrown);
}
