//! The hands that drive the simulation.
//!
//! The input system keeps the joints of one body up to date from one of two
//! sources: a pose detector that reports where the hands, the neck and the
//! shoulders are, or the pointer of a window, which then stands for the right
//! hand. From the joints it derives what the physics system asks for: the
//! vector with which the right hand throws, and the spread distance.

use crate::particle::ClockError;
use crate::scalar::{ratio, ratio_of, zero, Scalar};
use crate::vector::Vec3;
use vstd::prelude::*;

verus! {

/// A button of the pointer.
#[derive(Clone, Copy, Debug, PartialEq, Eq, Structural)]
pub enum MouseButton {
    Left,
    Right,
    Middle,
    Back,
    Forward,
    Other(u16),
}

/// Whether a button went down or came up.
#[derive(Clone, Copy, Debug, PartialEq, Eq, Structural)]
pub enum ElementState {
    Pressed,
    Released,
}

/// What a calibration came to.
#[derive(Clone, Copy, Debug, PartialEq, Eq, Structural)]
pub enum Calibration {
    /// The pose detector follows the body: the system is calibrated.
    Tracking,
    /// The pose detector does not see the body: nothing changed.
    NotVisible,
    /// Pose detection is on, but there is no detector: nothing changed.
    NoDetector,
    /// The pointer stands for the right hand: the system is calibrated.
    Pointer,
}

/// One hand: where it is and was, how fast it moves, whether it is open, and
/// whether the detector follows it.
#[derive(Debug, PartialEq)]
pub struct HandState<S: Scalar> {
    pub position: Vec3<S>,
    pub velocity: Vec3<S>,
    pub is_open: bool,
    pub is_tracked: bool,
    pub confidence: S,
    pub previous_position: Vec3<S>,
}

impl<S: Scalar> Clone for HandState<S> {
    fn clone(&self) -> (h: Self)
        ensures
            h == *self,
    {
        *self
    }
}

impl<S: Scalar> Copy for HandState<S> {

}

/// The joints of the body that the simulation looks at.
#[derive(Debug, PartialEq)]
pub struct BodyJoints<S: Scalar> {
    pub right_hand: HandState<S>,
    pub left_hand: HandState<S>,
    pub spine_shoulder: Vec3<S>,
    pub spine_base: Vec3<S>,
    pub shoulder_right: Vec3<S>,
    pub shoulder_left: Vec3<S>,
    pub neck: Vec3<S>,
}

impl<S: Scalar> Clone for BodyJoints<S> {
    fn clone(&self) -> (j: Self)
        ensures
            j == *self,
    {
        *self
    }
}

impl<S: Scalar> Copy for BodyJoints<S> {

}

/// What a pose detector reports of one frame: the positions it found, `None`
/// for one that it did not find, and whether each hand is open.
#[derive(Debug, PartialEq)]
pub struct PoseReading<S: Scalar> {
    pub right_hand_pos: Option<Vec3<S>>,
    pub left_hand_pos: Option<Vec3<S>>,
    pub right_hand_open: bool,
    pub left_hand_open: bool,
    pub neck_pos: Option<Vec3<S>>,
    pub right_shoulder_pos: Option<Vec3<S>>,
    pub left_shoulder_pos: Option<Vec3<S>>,
}

impl<S: Scalar> Clone for PoseReading<S> {
    fn clone(&self) -> (r: Self)
        ensures
            r == *self,
    {
        *self
    }
}

impl<S: Scalar> Copy for PoseReading<S> {

}

/// What the input hands to the physics system in one frame: where the
/// throwing hand is, if the input is calibrated and so knows; the vector with
/// which it throws; whether it is open; and the spread distance.
#[derive(Debug, PartialEq)]
pub struct HandSample<S: Scalar> {
    pub position: Option<Vec3<S>>,
    pub velocity: Vec3<S>,
    pub is_open: bool,
    pub spread_distance: S,
}

impl<S: Scalar> Clone for HandSample<S> {
    fn clone(&self) -> (h: Self)
        ensures
            h == *self,
    {
        *self
    }
}

impl<S: Scalar> Copy for HandSample<S> {

}

/// The joints of a body, and how they are kept up to date.
///
/// `last_update_time` is the time of the last look at the hands, in
/// milliseconds, and zero before the first. With `use_pose_detection` the
/// joints follow a pose detector; without it the pointer moves the right
/// hand.
pub struct InputSystem<S: Scalar> {
    pub body_joints: BodyJoints<S>,
    pub is_calibrated: bool,
    pub window_size: (u32, u32),
    pub last_update_time: u64,
    pub mouse_position: (S, S),
    pub mouse_pressed: bool,
    pub use_pose_detection: bool,
}

/// The seconds from `earlier` to `now`, both in milliseconds.
pub open spec fn seconds_between<S: Scalar>(earlier: u64, now: u64) -> S {
    S::of_int((now - earlier) as i128).quotient(S::of_int(1000))
}

/// `joint`, or `reading` where the detector found the joint.
pub open spec fn found_or<S: Scalar>(reading: Option<Vec3<S>>, joint: Vec3<S>) -> Vec3<S> {
    match reading {
        Some(position) => position,
        None => joint,
    }
}

/// Where on an axis of the scene the pointer stands, `at` being its place in
/// a window that is `extent` pixels wide on this axis:
/// `(at / extent - 1 / 2) * 200`.
pub open spec fn pointer_coordinate<S: Scalar>(at: S, extent: u32) -> S {
    at.quotient(S::of_int(extent as i128)).difference(ratio(1, 2)).product(S::of_int(200))
}

/// How deep in the scene the pointer stands: at -50 while the button is
/// down, at -100 else.
pub open spec fn pointer_depth<S: Scalar>(pressed: bool) -> S {
    if pressed {
        S::of_int(-50i128)
    } else {
        S::of_int(-100i128)
    }
}

impl<S: Scalar> HandState<S> {
    /// A hand at the origin, at rest, closed and not followed.
    pub open spec fn idle() -> Self {
        HandState {
            position: Vec3::origin(),
            velocity: Vec3::origin(),
            is_open: false,
            is_tracked: false,
            confidence: zero(),
            previous_position: Vec3::origin(),
        }
    }

    /// The hand after a look at `now`, the look before having been at `last`.
    ///
    /// A hand that the detector did not find is no longer followed, and is
    /// else as it was. A hand that it found is followed and takes over the
    /// position and whether it is open. Its velocity becomes the way from
    /// the position before, times `1 / seconds`, where there was a look
    /// before (`last` is not zero) and the seconds since then are more than
    /// zero.
    pub open spec fn followed(
        self,
        reading: Option<Vec3<S>>,
        open: bool,
        last: u64,
        now: u64,
    ) -> Self {
        match reading {
            Some(position) => {
                let seconds = seconds_between::<S>(last, now);
                HandState {
                    previous_position: self.position,
                    position,
                    is_tracked: true,
                    is_open: open,
                    velocity: if last > 0 && zero::<S>().less(seconds) {
                        position.difference(self.position).scaled(S::of_int(1).quotient(seconds))
                    } else {
                        self.velocity
                    },
                    ..self
                }
            },
            None => HandState { is_tracked: false, ..self },
        }
    }

    /// Computes [`Self::followed`] in place.
    fn follow(&mut self, reading: Option<Vec3<S>>, open: bool, last: u64, now: u64)
        requires
            last <= now,
        ensures
            *final(self) == old(self).followed(reading, open, last, now),
    {
        match reading {
            Some(position) => {
                self.previous_position = self.position;
                self.position = position;
                self.is_tracked = true;
                self.is_open = open;
                if last > 0 {
                    let dt = S::from_int((now - last) as i128).over(S::from_int(1000));
                    if S::from_int(0).lt(dt) {
                        let velocity = (self.position - self.previous_position) * S::from_int(
                            1,
                        ).over(dt);
                        self.velocity = velocity;
                    }
                }
            },
            None => {
                self.is_tracked = false;
            },
        }
    }
}

impl<S: Scalar> Default for HandState<S> {
    fn default() -> (h: Self)
        ensures
            h == Self::idle(),
    {
        HandState {
            position: Vec3::new(),
            velocity: Vec3::new(),
            is_open: false,
            is_tracked: false,
            confidence: S::from_int(0),
            previous_position: Vec3::new(),
        }
    }
}

impl<S: Scalar> BodyJoints<S> {
    /// A body with idle hands and every joint at the origin.
    pub open spec fn idle() -> Self {
        BodyJoints {
            right_hand: HandState::idle(),
            left_hand: HandState::idle(),
            spine_shoulder: Vec3::origin(),
            spine_base: Vec3::origin(),
            shoulder_right: Vec3::origin(),
            shoulder_left: Vec3::origin(),
            neck: Vec3::origin(),
        }
    }

    /// The joints after a look at `now`, the look before having been at
    /// `last`.
    ///
    /// Each hand is [`HandState::followed`]. The neck and the shoulders move
    /// to where the detector found them. Where the neck then lies off the
    /// origin, the spine is placed by it: its upper end 30 below the neck on
    /// the y axis, its base 150 below that.
    pub open spec fn followed(self, reading: PoseReading<S>, last: u64, now: u64) -> Self {
        let neck = found_or(reading.neck_pos, self.neck);
        let spine_shoulder = neck.sum(Vec3 { x: zero(), y: S::of_int(30), z: zero() });
        let spine_base = spine_shoulder.sum(Vec3 { x: zero(), y: S::of_int(150), z: zero() });
        let estimated = zero::<S>().less(neck.length());
        BodyJoints {
            right_hand: self.right_hand.followed(
                reading.right_hand_pos,
                reading.right_hand_open,
                last,
                now,
            ),
            left_hand: self.left_hand.followed(
                reading.left_hand_pos,
                reading.left_hand_open,
                last,
                now,
            ),
            neck,
            shoulder_right: found_or(reading.right_shoulder_pos, self.shoulder_right),
            shoulder_left: found_or(reading.left_shoulder_pos, self.shoulder_left),
            spine_shoulder: if estimated {
                spine_shoulder
            } else {
                self.spine_shoulder
            },
            spine_base: if estimated {
                spine_base
            } else {
                self.spine_base
            },
        }
    }

    /// The joints after the pointer moved to `(x, y)` in a window of size
    /// `window_size`: the right hand is followed, stands where the pointer
    /// stands in the scene, and has ten times the way from its position
    /// before as its velocity.
    pub open spec fn pointed(self, x: S, y: S, window_size: (u32, u32), pressed: bool) -> Self {
        let position = Vec3 {
            x: pointer_coordinate(x, window_size.0),
            y: pointer_coordinate(y, window_size.1),
            z: pointer_depth(pressed),
        };
        BodyJoints {
            right_hand: HandState {
                position,
                is_tracked: true,
                velocity: position.difference(self.right_hand.position).scaled(S::of_int(10)),
                ..self.right_hand
            },
            ..self
        }
    }

    /// The joints after a calibration on the pointer: the spine, the right
    /// shoulder and the left hand stand at fixed places.
    pub open spec fn posed_for_pointer(self) -> Self {
        BodyJoints {
            spine_base: Vec3 { x: zero(), y: zero(), z: zero() },
            spine_shoulder: Vec3 { x: zero(), y: S::of_int(50), z: zero() },
            shoulder_right: Vec3 { x: S::of_int(30), y: S::of_int(40), z: zero() },
            left_hand: HandState {
                position: Vec3 { x: S::of_int(-50i128), y: zero(), z: S::of_int(-100i128) },
                ..self.left_hand
            },
            ..self
        }
    }

    /// The vector with which the right hand throws: a tenth of its velocity
    /// where the hand is open, followed, and faster than 1 / 10; zero else.
    pub open spec fn right_hand_vector(self) -> Vec3<S> {
        if self.right_hand.is_open && self.right_hand.is_tracked && ratio::<S>(1, 10).less(
            self.right_hand.velocity.length(),
        ) {
            self.right_hand.velocity.scaled(ratio(1, 10))
        } else {
            Vec3::origin()
        }
    }

    /// The distance from the left hand to the base of the spine.
    pub open spec fn spread_distance(self) -> S {
        let dx = self.spine_base.x.difference(self.left_hand.position.x);
        let dy = self.spine_base.y.difference(self.left_hand.position.y);
        let dz = self.spine_base.z.difference(self.left_hand.position.z);
        dx.product(dx).sum(dy.product(dy)).sum(dz.product(dz)).root()
    }
}

impl<S: Scalar> Default for BodyJoints<S> {
    fn default() -> (j: Self)
        ensures
            j == Self::idle(),
    {
        BodyJoints {
            right_hand: HandState::default(),
            left_hand: HandState::default(),
            spine_shoulder: Vec3::new(),
            spine_base: Vec3::new(),
            shoulder_right: Vec3::new(),
            shoulder_left: Vec3::new(),
            neck: Vec3::new(),
        }
    }
}

impl<S: Scalar> InputSystem<S> {
    /// An input system for a window of the given size, with an idle body and
    /// not calibrated. It follows a pose detector where one was started, and
    /// the pointer where none was.
    pub fn new(window_width: u32, window_height: u32, detector_started: bool) -> (system: Self)
        ensures
            system.body_joints == BodyJoints::<S>::idle(),
            !system.is_calibrated,
            system.window_size == (window_width, window_height),
            system.last_update_time == 0,
            system.mouse_position == (zero::<S>(), zero::<S>()),
            !system.mouse_pressed,
            system.use_pose_detection == detector_started,
    {
        InputSystem {
            body_joints: BodyJoints::default(),
            is_calibrated: false,
            window_size: (window_width, window_height),
            last_update_time: 0,
            mouse_position: (S::from_int(0), S::from_int(0)),
            mouse_pressed: false,
            use_pose_detection: detector_started,
        }
    }

    /// Whether `other` differs from `self` in the joints and the time of the
    /// last look at most.
    pub open spec fn same_settings(self, other: Self) -> bool {
        &&& self.is_calibrated == other.is_calibrated
        &&& self.window_size == other.window_size
        &&& self.mouse_position == other.mouse_position
        &&& self.mouse_pressed == other.mouse_pressed
        &&& self.use_pose_detection == other.use_pose_detection
    }

    /// Takes what the pose detector reports at `now`, where the system
    /// follows a pose detector and the detector has something to report.
    /// Does nothing where the system follows the pointer, or where `reading`
    /// is `None`.
    ///
    /// A `now` before the last look is an error, and changes nothing.
    pub fn update(&mut self, reading: Option<PoseReading<S>>, now: u64) -> (r: Result<
        (),
        ClockError,
    >)
        ensures
            !(old(self).use_pose_detection && reading is Some) ==> r is Ok
                && *final(self) == *old(self),
            old(self).use_pose_detection && reading is Some ==> {
                &&& now < old(self).last_update_time ==> r == Err::<(), ClockError>(
                    ClockError::WentBackwards { earlier: old(self).last_update_time, now },
                ) && *final(self) == *old(self)
                &&& now >= old(self).last_update_time ==> r is Ok && final(self).body_joints
                    == old(self).body_joints.followed(
                    reading->Some_0,
                    old(self).last_update_time,
                    now,
                ) && final(self).last_update_time == now && final(self).same_settings(*old(self))
            },
    {
        if !self.use_pose_detection {
            return Ok(());
        }
        match reading {
            None => Ok(()),
            Some(found) => self.update_body_joints_from_data(
                found.right_hand_pos,
                found.left_hand_pos,
                found.right_hand_open,
                found.left_hand_open,
                found.neck_pos,
                found.right_shoulder_pos,
                found.left_shoulder_pos,
                now,
            ),
        }
    }

    /// Takes the joints that a pose detector found at `now`: see
    /// [`BodyJoints::followed`]. `now` becomes the time of the last look.
    ///
    /// A `now` before the last look is an error, and changes nothing.
    pub fn update_body_joints_from_data(
        &mut self,
        right_hand_pos: Option<Vec3<S>>,
        left_hand_pos: Option<Vec3<S>>,
        right_hand_open: bool,
        left_hand_open: bool,
        neck_pos: Option<Vec3<S>>,
        right_shoulder_pos: Option<Vec3<S>>,
        left_shoulder_pos: Option<Vec3<S>>,
        now: u64,
    ) -> (r: Result<(), ClockError>)
        ensures
            now < old(self).last_update_time ==> r == Err::<(), ClockError>(
                ClockError::WentBackwards { earlier: old(self).last_update_time, now },
            ) && *final(self) == *old(self),
            now >= old(self).last_update_time ==> r is Ok
                && final(self).body_joints == old(self).body_joints.followed(
                PoseReading {
                    right_hand_pos,
                    left_hand_pos,
                    right_hand_open,
                    left_hand_open,
                    neck_pos,
                    right_shoulder_pos,
                    left_shoulder_pos,
                },
                old(self).last_update_time,
                now,
            ) && final(self).last_update_time == now && final(self).same_settings(*old(self)),
    {
        let last: u64 = self.last_update_time;
        if now < last {
            return Err(ClockError::WentBackwards { earlier: last, now });
        }
        self.body_joints.right_hand.follow(right_hand_pos, right_hand_open, last, now);
        self.body_joints.left_hand.follow(left_hand_pos, left_hand_open, last, now);

        match neck_pos {
            Some(neck_position) => {
                self.body_joints.neck = neck_position;
            },
            None => {},
        }
        match right_shoulder_pos {
            Some(right_shoulder_position) => {
                self.body_joints.shoulder_right = right_shoulder_position;
            },
            None => {},
        }
        match left_shoulder_pos {
            Some(left_shoulder_position) => {
                self.body_joints.shoulder_left = left_shoulder_position;
            },
            None => {},
        }

        if S::from_int(0).lt(self.body_joints.neck.magnitude()) {
            self.body_joints.spine_shoulder = self.body_joints.neck + Vec3::from_coords(
                S::from_int(0),
                S::from_int(30),
                S::from_int(0),
            );
            self.body_joints.spine_base = self.body_joints.spine_shoulder + Vec3::from_coords(
                S::from_int(0),
                S::from_int(150),
                S::from_int(0),
            );
        }
        self.last_update_time = now;
        Ok(())
    }

    /// Takes a move of the pointer to `(x, y)` in the window, where the
    /// system follows the pointer: see [`BodyJoints::pointed`]. Does nothing
    /// where it follows a pose detector.
    pub fn update_mouse_position(&mut self, x: S, y: S)
        ensures
            old(self).use_pose_detection ==> *final(self) == *old(self),
            !old(self).use_pose_detection ==> final(self).body_joints
                == old(self).body_joints.pointed(
                x,
                y,
                old(self).window_size,
                old(self).mouse_pressed,
            ),
            final(self).same_settings(*old(self)),
            final(self).last_update_time == old(self).last_update_time,
    {
        if !self.use_pose_detection {
            let prev_pos = self.body_joints.right_hand.position;

            let half: S = ratio_of(1, 2);
            let normalized_x = x.over(S::from_int(self.window_size.0 as i128)).minus(half).times(
                S::from_int(200),
            );
            let normalized_y = y.over(S::from_int(self.window_size.1 as i128)).minus(half).times(
                S::from_int(200),
            );
            let z = if self.mouse_pressed {
                S::from_int(-50)
            } else {
                S::from_int(-100)
            };

            self.body_joints.right_hand.position = Vec3::from_coords(normalized_x, normalized_y, z);
            self.body_joints.right_hand.is_tracked = true;

            let velocity = self.body_joints.right_hand.position - prev_pos;
            self.body_joints.right_hand.velocity = velocity * S::from_int(10);
        }
    }

    /// Takes a button of the pointer going down or coming up. Where the
    /// system follows the pointer, the left button opens the right hand
    /// while it is down. Any other button, and any button where the system
    /// follows a pose detector, changes nothing.
    pub fn update_mouse_button(&mut self, button: MouseButton, state: ElementState)
        ensures
            old(self).use_pose_detection || button != MouseButton::Left ==> *final(self)
                == *old(self),
            !old(self).use_pose_detection && button == MouseButton::Left ==> {
                &&& final(self).mouse_pressed == (state == ElementState::Pressed)
                &&& final(self).body_joints == (BodyJoints {
                    right_hand: HandState {
                        is_open: state == ElementState::Pressed,
                        ..old(self).body_joints.right_hand
                    },
                    ..old(self).body_joints
                })
                &&& final(self).is_calibrated == old(self).is_calibrated
                &&& final(self).window_size == old(self).window_size
                &&& final(self).mouse_position == old(self).mouse_position
                &&& final(self).use_pose_detection == old(self).use_pose_detection
                &&& final(self).last_update_time == old(self).last_update_time
            },
    {
        if !self.use_pose_detection {
            match button {
                MouseButton::Left => {
                    match state {
                        ElementState::Pressed => {
                            self.mouse_pressed = true;
                            self.body_joints.right_hand.is_open = true;
                        },
                        ElementState::Released => {
                            self.mouse_pressed = false;
                            self.body_joints.right_hand.is_open = false;
                        },
                    }
                },
                _ => {},
            }
        }
    }

    /// Calibrates the system. `detector_ready` says whether there is a pose
    /// detector (`None` where there is none) and whether it sees the body.
    ///
    /// Where the system follows a pose detector, it is calibrated where the
    /// detector sees the body, and nothing changes where it does not or
    /// where there is no detector. Where the system follows the pointer, the
    /// joints take the places of [`BodyJoints::posed_for_pointer`] and the
    /// system is calibrated.
    pub fn calibrate(&mut self, detector_ready: Option<bool>) -> (outcome: Calibration)
        ensures
            outcome == old(self).calibration(detector_ready),
            outcome == Calibration::Tracking ==> *final(self) == (InputSystem {
                is_calibrated: true,
                ..*old(self)
            }),
            outcome == Calibration::NotVisible || outcome == Calibration::NoDetector
                ==> *final(self) == *old(self),
            outcome == Calibration::Pointer ==> *final(self) == (InputSystem {
                is_calibrated: true,
                body_joints: old(self).body_joints.posed_for_pointer(),
                ..*old(self)
            }),
    {
        if self.use_pose_detection {
            match detector_ready {
                Some(true) => {
                    self.is_calibrated = true;
                    Calibration::Tracking
                },
                Some(false) => Calibration::NotVisible,
                None => Calibration::NoDetector,
            }
        } else {
            self.body_joints.spine_base = Vec3::from_coords(
                S::from_int(0),
                S::from_int(0),
                S::from_int(0),
            );
            self.body_joints.spine_shoulder = Vec3::from_coords(
                S::from_int(0),
                S::from_int(50),
                S::from_int(0),
            );
            self.body_joints.shoulder_right = Vec3::from_coords(
                S::from_int(30),
                S::from_int(40),
                S::from_int(0),
            );
            self.body_joints.left_hand.position = Vec3::from_coords(
                S::from_int(-50),
                S::from_int(0),
                S::from_int(-100),
            );
            self.is_calibrated = true;
            Calibration::Pointer
        }
    }

    /// What a calibration comes to, for what the detector says of itself.
    pub open spec fn calibration(self, detector_ready: Option<bool>) -> Calibration {
        if !self.use_pose_detection {
            Calibration::Pointer
        } else {
            match detector_ready {
                Some(true) => Calibration::Tracking,
                Some(false) => Calibration::NotVisible,
                None => Calibration::NoDetector,
            }
        }
    }

    /// The vector with which the right hand throws: see
    /// [`BodyJoints::right_hand_vector`].
    pub fn get_right_hand_vector(&self) -> (v: Vec3<S>)
        ensures
            v == self.body_joints.right_hand_vector(),
    {
        if self.body_joints.right_hand.is_open && self.body_joints.right_hand.is_tracked {
            let mut hand_vector = self.body_joints.right_hand.velocity;
            if ratio_of::<S>(1, 10).lt(hand_vector.magnitude()) {
                hand_vector.mult(ratio_of(1, 10));
                return hand_vector;
            }
        }
        Vec3::new()
    }

    /// The spread distance: how far the left hand is from the base of the
    /// spine.
    pub fn get_spread_distance(&self) -> (distance: S)
        ensures
            distance == self.body_joints.spread_distance(),
    {
        let left_hand = &self.body_joints.left_hand.position;
        let spine_base = &self.body_joints.spine_base;

        let dx = spine_base.x.minus(left_hand.x);
        let dy = spine_base.y.minus(left_hand.y);
        let dz = spine_base.z.minus(left_hand.z);

        dx.times(dx).plus(dy.times(dy)).plus(dz.times(dz)).sqrt()
    }

    /// What the right hand hands to the physics system in this frame. Its
    /// position is there where the system is calibrated.
    pub fn get_hand_sample(&self) -> (sample: HandSample<S>)
        ensures
            sample == (HandSample {
                position: if self.is_calibrated {
                    Some(self.body_joints.right_hand.position)
                } else {
                    None
                },
                velocity: self.body_joints.right_hand_vector(),
                is_open: self.body_joints.right_hand.is_open,
                spread_distance: self.body_joints.spread_distance(),
            }),
    {
        HandSample {
            position: if self.is_calibrated {
                Some(self.body_joints.right_hand.position)
            } else {
                None
            },
            velocity: self.get_right_hand_vector(),
            is_open: self.body_joints.right_hand.is_open,
            spread_distance: self.get_spread_distance(),
        }
    }

    /// Takes over a new size of the window.
    pub fn resize(&mut self, width: u32, height: u32)
        ensures
            *final(self) == (InputSystem { window_size: (width, height), ..*old(self) }),
    {
        self.window_size = (width, height);
    }

    /// The line that says where the input comes from, and how well.
    pub open spec fn detection_status(self, detector_ready: Option<bool>) -> Seq<char> {
        if !self.use_pose_detection {
            "🖱️ Mouse Input Mode"@
        } else {
            match detector_ready {
                None => "📸 Camera: Not Available"@,
                Some(false) => "📸 Camera: Active | 👤 Pose: Not Detected"@,
                Some(true) => if self.body_joints.right_hand.is_tracked {
                    if self.body_joints.left_hand.is_tracked {
                        "📸 Camera: Active | 👤 Pose: Detected | ✋ Right Hand: Tracked | 🤚 Left Hand: Tracked"@
                    } else {
                        "📸 Camera: Active | 👤 Pose: Detected | ✋ Right Hand: Tracked | 🤚 Left Hand: Lost"@
                    }
                } else {
                    if self.body_joints.left_hand.is_tracked {
                        "📸 Camera: Active | 👤 Pose: Detected | ✋ Right Hand: Lost | 🤚 Left Hand: Tracked"@
                    } else {
                        "📸 Camera: Active | 👤 Pose: Detected | ✋ Right Hand: Lost | 🤚 Left Hand: Lost"@
                    }
                },
            }
        }
    }

    /// A line that says where the input comes from, and how well.
    /// `detector_ready` says whether there is a pose detector (`None` where
    /// there is none) and whether it sees the body.
    ///
    /// Where the system follows the pointer the line says so. Where it
    /// follows a pose detector, the line says that there is no camera, or
    /// that the camera is active and no pose detected, or that a pose is
    /// detected and which hands are followed and which lost.
    pub fn get_detection_status(&self, detector_ready: Option<bool>) -> (status: String)
        ensures
            status@ == self.detection_status(detector_ready),
    {
        if self.use_pose_detection {
            match detector_ready {
                Some(true) => {
                    if self.body_joints.right_hand.is_tracked {
                        if self.body_joints.left_hand.is_tracked {
                            "📸 Camera: Active | 👤 Pose: Detected | ✋ Right Hand: Tracked | 🤚 Left Hand: Tracked".to_string()
                        } else {
                            "📸 Camera: Active | 👤 Pose: Detected | ✋ Right Hand: Tracked | 🤚 Left Hand: Lost".to_string()
                        }
                    } else {
                        if self.body_joints.left_hand.is_tracked {
                            "📸 Camera: Active | 👤 Pose: Detected | ✋ Right Hand: Lost | 🤚 Left Hand: Tracked".to_string()
                        } else {
                            "📸 Camera: Active | 👤 Pose: Detected | ✋ Right Hand: Lost | 🤚 Left Hand: Lost".to_string()
                        }
                    }
                },
                Some(false) => "📸 Camera: Active | 👤 Pose: Not Detected".to_string(),
                None => "📸 Camera: Not Available".to_string(),
            }
        } else {
            "🖱️ Mouse Input Mode".to_string()
        }
    }
}

} // verus!
