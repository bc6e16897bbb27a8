//! Pendulum populations: the canonical single instance and the chaos swarm.
//!
//! A double pendulum here is described by its construction-time data: the
//! two links' masses and lengths, the gravity they swing under, the initial
//! angle both links share, and a display color. The links' angles, angular
//! velocities and Cartesian positions evolve in floating point inside the
//! host's integrator and are not held here; this module pins down exactly
//! which instances exist and how each one starts.
//!
//! Angles are kept in whole microdegrees, which represents both the
//! canonical initial angle (120 degrees) and the swarm's infinitesimal
//! per-instance increment (one ten-thousandth of a degree, 100 microdegrees)
//! exactly. Gravity is kept in hundredths, which represents 9.81 exactly.
//! The host converts microdegrees to radians when it builds its
//! floating-point state.

use vstd::prelude::*;
use crate::color::Rgb;
use crate::color::rainbow_channels;
use crate::color::rainbow_color;
use crate::color::rgb_is;
use crate::color::white;

verus! {

/// Mass of the upper link, in whole mass units.
pub const TOP_MASS: u64 = 10;

/// Length of the upper link, in whole length units.
pub const TOP_LENGTH: u64 = 2;

/// Mass of the lower link, in whole mass units.
pub const BOTTOM_MASS: u64 = 20;

/// Length of the lower link, in whole length units.
pub const BOTTOM_LENGTH: u64 = 1;

/// Gravitational acceleration in hundredths of a length unit per squared
/// second: 981 stands for 9.81.
pub const GRAVITY_CENTI: u64 = 981;

/// The canonical initial angle, in microdegrees: 120 degrees from vertical.
pub const DEFAULT_ANGLE_UDEG: u64 = 120_000_000;

/// The per-instance initial-angle increment of the chaos population, in
/// microdegrees: one ten-thousandth of a degree.
pub const CHAOS_ANGLE_STEP_UDEG: u64 = 100;

/// How many instances the chaos population holds.
pub const CHAOS_COUNT: usize = 1000;

/// Construction-time parameters of one pendulum link.
#[derive(Clone, Copy, Debug, PartialEq, Eq, Structural)]
pub struct PendulumParams {
    /// Mass of the bob, in whole mass units.
    pub mass: u64,
    /// Length of the link, in whole length units.
    pub length: u64,
}

/// Everything a double-pendulum instance is built from.
#[derive(Clone, Copy, Debug, PartialEq, Eq, Structural)]
pub struct DoublePendulumInit {
    /// The link anchored at the fixed pivot.
    pub top: PendulumParams,
    /// The link anchored at the tip of the upper one.
    pub bottom: PendulumParams,
    /// Gravity both links swing under, in hundredths.
    pub gravity_centi: u64,
    /// Initial angle of both links, in microdegrees from vertical.
    pub initial_angle_udeg: u64,
    /// Display tag the renderer reads; the physics never branches on it.
    pub color: Rgb,
}

/// The initial angle of chaos-population instance `i`, in microdegrees: the
/// canonical angle plus `i` increments.
pub open spec fn chaos_angle_udeg(i: int) -> int {
    DEFAULT_ANGLE_UDEG + CHAOS_ANGLE_STEP_UDEG * i
}

impl DoublePendulumInit {
    /// Every instance carries the one standard rig: upper link of mass 10
    /// and length 2, lower link of mass 20 and length 1, gravity 9.81.
    pub open spec fn standard_rig(self) -> bool {
        &&& self.top == (PendulumParams { mass: TOP_MASS, length: TOP_LENGTH })
        &&& self.bottom == (PendulumParams { mass: BOTTOM_MASS, length: BOTTOM_LENGTH })
        &&& self.gravity_centi == GRAVITY_CENTI
    }

    /// An instance of the standard rig at the given initial angle, tagged
    /// with the given color.
    pub fn new(initial_angle_udeg: u64, color: Rgb) -> (s: Self)
        ensures
            s.standard_rig(),
            s.initial_angle_udeg == initial_angle_udeg,
            s.color == color,
    {
        DoublePendulumInit {
            top: PendulumParams { mass: TOP_MASS, length: TOP_LENGTH },
            bottom: PendulumParams { mass: BOTTOM_MASS, length: BOTTOM_LENGTH },
            gravity_centi: GRAVITY_CENTI,
            initial_angle_udeg,
            color,
        }
    }
}

/// The ordered collection of instances the host integrates and draws, with
/// the set-wide display flags. Order is draw order only; the instances are
/// physically independent.
pub struct SimulationSet {
    /// The instances, in draw order.
    pub sims: Vec<DoublePendulumInit>,
    /// Whether the renderer keeps a trail of the lower bob's path.
    pub trails: bool,
    /// Whether the renderer draws the links and bobs themselves.
    pub show_pendulum: bool,
}

impl SimulationSet {
    /// Exactly one instance, at the canonical angle, tagged white, with the
    /// trail and the pendulum itself drawn.
    pub open spec fn is_default_population(self) -> bool {
        &&& self.sims@.len() == 1
        &&& self.sims@[0].standard_rig()
        &&& self.sims@[0].initial_angle_udeg == DEFAULT_ANGLE_UDEG
        &&& self.sims@[0].color == white()
        &&& self.trails
        &&& self.show_pendulum
    }

    /// Exactly [`CHAOS_COUNT`] instances; instance `i` starts `i`
    /// infinitesimal increments past the canonical angle and is tagged with
    /// the hue at fraction `i / 1000` of the hue wheel. A thousand
    /// overlapping trails are useless, so neither trails nor the pendulums
    /// themselves are drawn — only the colored bobs' motion.
    pub open spec fn is_chaos_population(self) -> bool {
        &&& self.sims@.len() == CHAOS_COUNT
        &&& forall|i: int|
            0 <= i < CHAOS_COUNT ==> (#[trigger] self.sims@[i]).standard_rig()
        &&& forall|i: int|
            0 <= i < CHAOS_COUNT ==> (#[trigger] self.sims@[i]).initial_angle_udeg
                == chaos_angle_udeg(i)
        &&& forall|i: int|
            0 <= i < CHAOS_COUNT ==> rgb_is((#[trigger] self.sims@[i]).color, rainbow_channels(i))
        &&& !self.trails
        &&& !self.show_pendulum
    }

    /// An empty set with the display flags of the default population; the
    /// host fills it through one of the population switches before the
    /// first tick.
    pub fn new() -> (s: Self)
        ensures
            s.sims@.len() == 0,
            s.trails,
            s.show_pendulum,
    {
        SimulationSet { sims: Vec::new(), trails: true, show_pendulum: true }
    }

    /// Replace whatever is there with the default population: one white
    /// instance at the canonical angle. Nothing of the prior population
    /// survives the switch.
    pub fn set_default(&mut self)
        ensures
            final(self).is_default_population(),
    {
        self.sims.clear();
        self.sims.push(
            DoublePendulumInit::new(
                DEFAULT_ANGLE_UDEG,
                Rgb { r: 1000, g: 1000, b: 1000 },
            ),
        );
        self.trails = true;
        self.show_pendulum = true;
    }

    /// Replace whatever is there with the chaos population: a thousand
    /// near-duplicates whose initial angles step by one ten-thousandth of a
    /// degree, each tagged with its hue. Nothing of the prior population
    /// survives the switch.
    pub fn set_chaos(&mut self)
        ensures
            final(self).is_chaos_population(),
    {
        self.sims.clear();
        let mut i: usize = 0;
        while i < CHAOS_COUNT
            invariant
                i <= CHAOS_COUNT,
                self.sims@.len() == i,
                forall|j: int| 0 <= j < i ==> (#[trigger] self.sims@[j]).standard_rig(),
                forall|j: int|
                    0 <= j < i ==> (#[trigger] self.sims@[j]).initial_angle_udeg
                        == chaos_angle_udeg(j),
                forall|j: int|
                    0 <= j < i ==> rgb_is((#[trigger] self.sims@[j]).color, rainbow_channels(j)),
            decreases CHAOS_COUNT - i,
        {
            let color = rainbow_color(i as i64);
            let angle: u64 = DEFAULT_ANGLE_UDEG + (i as u64) * CHAOS_ANGLE_STEP_UDEG;
            self.sims.push(DoublePendulumInit::new(angle, color));
            i = i + 1;
        }
        self.trails = false;
        self.show_pendulum = false;
    }
}

} // verus!
