//! The decisions of the real-time controller.
//!
//! A controller manages a fixed, ordered set of servo ids and four vectors, one entry
//! per id: the gains, the goal positions, the measured speeds and the last sampled
//! positions. The periodic loop that drives it lives outside the library: each period
//! it reads the present position of every id, hands the reading to
//! [`ControllerState::step`], writes the commands that come back, and asks [`pace`]
//! how long to sleep.
use crate::control_table::{GOAL_POSITION, MODE, PRESENT_POSITION, TORQUE_ENABLE};
use crate::registers::{read_ticks_done, uniform, write_done, BusError, BusOp, Io, Transport};
use crate::units::{lemma_tick_angle_bounds, tick_angle, ticks_to_microradians, MAX_TICK_ANGLE};
use vstd::prelude::*;

verus! {

/// Largest magnitude of a command.
pub const MAX_COMMAND: i64 = 1000;

/// Bit of a packed command that is set when the command is not negative.
pub const DIRECTION_BIT: i64 = 1024;

/// A gain counts thousandths of a command unit per radian; errors are in microradians.
pub const GAIN_SCALE: u128 = 1_000_000_000;

/// Speeds are estimated on one successful iteration out of this many.
pub const SPEED_DECIMATION: u64 = 2;

/// Operating mode in which a servo holds its goal position.
pub const POSITION_MODE: u8 = 0;

/// Operating mode in which the goal time register carries a signed drive command.
pub const PWM_MODE: u8 = 2;

/// Microseconds in a second.
pub const MICROS_PER_SECOND: u64 = 1_000_000;

/// What the loop does besides sampling positions.
#[derive(Debug, Clone, Copy, PartialEq, Eq, Structural)]
pub enum ControlLaw {
    /// Only sample: no command is written.
    Telemetry,
    /// Drive each servo toward its goal with a command proportional to the error.
    Proportional,
}

/// The absolute value of `x`.
pub open spec fn abs(x: int) -> int {
    if x < 0 {
        -x
    } else {
        x
    }
}

/// The command for a gain and a position error: the sign of their product, and its
/// magnitude divided by [`GAIN_SCALE`], rounded down and limited to [`MAX_COMMAND`].
pub open spec fn command(gain: int, error: int) -> int {
    let m = abs(gain) * abs(error) / (GAIN_SCALE as int);
    let m = if m > MAX_COMMAND {
        MAX_COMMAND as int
    } else {
        m
    };
    if (gain < 0) != (error < 0) {
        -m
    } else {
        m
    }
}

/// A command packed into the goal time register: the magnitude in the low ten bits and
/// [`DIRECTION_BIT`] set for a command that is not negative.
pub open spec fn packed(c: int) -> int {
    if c >= 0 {
        DIRECTION_BIT + c
    } else {
        -c
    }
}

/// The speed, in microradians per second, of a move from `from` to `to` microradians
/// in `dt` microseconds, rounded toward zero.
pub open spec fn speed_estimate(from: int, to: int, dt: int) -> int {
    let d = (to - from) * MICROS_PER_SECOND;
    if d < 0 {
        -(-d / dt)
    } else {
        d / dt
    }
}

/// What the loop does after an iteration whose work took some time.
#[derive(Debug, Clone, Copy, PartialEq, Eq, Structural)]
pub enum Pacing {
    /// Sleep this many microseconds, the rest of the period.
    Sleep(u64),
    /// The iteration took the whole period or more: go on at once, skipping nothing.
    Overrun,
}

/// How to pace an iteration that took `elapsed_us` of a period of `period_us`: sleep the
/// rest of the period, or, where nothing is left of it, go on at once.
pub open spec fn pacing(elapsed_us: u64, period_us: u64) -> Pacing {
    if elapsed_us < period_us {
        Pacing::Sleep((period_us - elapsed_us) as u64)
    } else {
        Pacing::Overrun
    }
}

/// How to pace an iteration that took `elapsed_us` of a period of `period_us`.
pub fn pace(elapsed_us: u64, period_us: u64) -> (p: Pacing)
    ensures
        p == pacing(elapsed_us, period_us),
{
    if elapsed_us < period_us {
        Pacing::Sleep(period_us - elapsed_us)
    } else {
        Pacing::Overrun
    }
}

/// The loop period, in microseconds, of a loop frequency in millihertz, rounded down;
/// a frequency of zero has no period.
pub fn period_us(frequency_mhz: u64) -> (r: Result<u64, BusError>)
    ensures
        frequency_mhz == 0 ==> (r matches Err(BusError::PreconditionViolation)),
        frequency_mhz > 0 ==> (r matches Ok(p) && p == 1_000_000_000int / (frequency_mhz as int)),
{
    if frequency_mhz == 0 {
        Err(BusError::PreconditionViolation)
    } else {
        Ok(1_000_000_000 / frequency_mhz)
    }
}

/// An iteration whose work fits its period is no overrun, and with its sleep it lasts
/// exactly one period; so at 50 Hz, where the period is 20 ms, `k` such iterations last
/// `k` times 20 ms, and one second holds 50 of them.
pub proof fn lemma_paced_iterations(elapsed_us: u64, k: nat)
    requires
        elapsed_us < 20_000,
    ensures
        1_000_000_000int / 50_000 == 20_000,
        pacing(elapsed_us, 20_000) == Pacing::Sleep((20_000 - elapsed_us) as u64),
        k * (elapsed_us + (20_000 - elapsed_us)) == k * 20_000,
        50 * 20_000 == 1_000_000,
{
}

fn command_for(gain: i64, goal: i64, present: i64) -> (c: i64)
    requires
        -MAX_TICK_ANGLE <= present <= MAX_TICK_ANGLE,
    ensures
        c == command(gain as int, goal - present),
        -MAX_COMMAND <= c <= MAX_COMMAND,
{
    let e: i128 = goal as i128 - present as i128;
    let ga: u128 = if gain < 0 {
        (-(gain as i128)) as u128
    } else {
        gain as u128
    };
    let ea: u128 = if e < 0 {
        (-e) as u128
    } else {
        e as u128
    };
    assert(ga * ea <= 0x8000_0000_0000_0000u128 * 0x1_0000_0000_0000_0000u128) by (nonlinear_arith)
        requires
            ga <= 0x8000_0000_0000_0000u128,
            ea <= 0x1_0000_0000_0000_0000u128,
    ;
    let m: u128 = ga * ea / GAIN_SCALE;
    let m: i64 = if m > MAX_COMMAND as u128 {
        MAX_COMMAND
    } else {
        m as i64
    };
    if (gain < 0) != (e < 0) {
        -m
    } else {
        m
    }
}

fn pack(c: i64) -> (u: i64)
    requires
        -MAX_COMMAND <= c <= MAX_COMMAND,
    ensures
        u == packed(c as int),
{
    if c >= 0 {
        DIRECTION_BIT + c
    } else {
        -c
    }
}

fn estimate(from: i64, to: i64, dt: u64) -> (s: i64)
    requires
        -MAX_TICK_ANGLE <= from <= MAX_TICK_ANGLE,
        -MAX_TICK_ANGLE <= to <= MAX_TICK_ANGLE,
        dt > 0,
    ensures
        s == speed_estimate(from as int, to as int, dt as int),
{
    let diff: i64 = to - from;
    assert(-2 * MAX_TICK_ANGLE * 1_000_000 <= diff * 1_000_000 <= 2 * MAX_TICK_ANGLE * 1_000_000) by (nonlinear_arith)
        requires
            -2 * MAX_TICK_ANGLE <= diff <= 2 * MAX_TICK_ANGLE,
    ;
    let d: i64 = diff * 1_000_000;
    if d < 0 {
        -(((-d) as u64 / dt) as i64)
    } else {
        (d as u64 / dt) as i64
    }
}

/// The ticks of a successful reading.
pub open spec fn sampled(reading: Result<Vec<i32>, BusError>) -> Option<Seq<i32>> {
    match reading {
        Ok(ticks) => Some(ticks@),
        Err(_) => None,
    }
}

/// The state after a successful reading of `ticks` at `now_us`: the positions
/// replaced, and, on the first of every [`SPEED_DECIMATION`] iterations where time has
/// passed since the last estimate, the speeds estimated over that interval.
pub open spec fn after_sample(v: ControllerView, ticks: Seq<i32>, now_us: u64) -> ControllerView {
    let present = ticks.map_values(|t: i32| tick_angle(t as int) as i64);
    let estimating = v.phase == 0 && now_us > v.speed_origin_us;
    ControllerView {
        present_position: present,
        phase: ((v.phase + 1) % (SPEED_DECIMATION as int)) as u64,
        measured_speed: if estimating {
            Seq::new(
                v.ids.len(),
                |i: int| speed_estimate(v.speed_origin[i] as int, present[i] as int, now_us - v.speed_origin_us) as i64,
            )
        } else {
            v.measured_speed
        },
        speed_origin: if estimating {
            present
        } else {
            v.speed_origin
        },
        speed_origin_us: if estimating {
            now_us
        } else {
            v.speed_origin_us
        },
        ..v
    }
}

/// The packed command of every servo, from its gain, goal and last sampled position.
pub open spec fn commands(v: ControllerView) -> Seq<i64> {
    Seq::new(
        v.ids.len(),
        |i: int| packed(command(v.gains[i] as int, v.goal_position[i] - v.present_position[i])) as i64,
    )
}

/// A new controller of `ids`, whose servos stood at `ticks` at `now_us`: the gains and
/// goals given, every speed zero.
pub open spec fn initial_view(
    ids: Seq<u8>,
    law: ControlLaw,
    gains: Seq<i64>,
    goal_position: Seq<i64>,
    ticks: Seq<i32>,
    now_us: u64,
) -> ControllerView {
    let present = ticks.map_values(|t: i32| tick_angle(t as int) as i64);
    ControllerView {
        ids,
        law,
        gains,
        goal_position,
        measured_speed: uniform(ids.len(), 0i64),
        present_position: present,
        phase: 0,
        speed_origin: present,
        speed_origin_us: now_us,
    }
}

/// One iteration of the loop took the state from `before` to `after` and asked for the
/// writes `out`, given the ticks it read at `now_us`, or `None` where the read failed.
pub open spec fn step_done(
    before: ControllerView,
    reading: Option<Seq<i32>>,
    now_us: u64,
    after: ControllerView,
    out: Option<Vec<i64>>,
) -> bool {
    match reading {
        Some(ticks) if ticks.len() == before.ids.len() => {
            &&& after == after_sample(before, ticks, now_us)
            &&& before.law == ControlLaw::Telemetry ==> out is None
            &&& before.law == ControlLaw::Proportional ==> (out matches Some(c) && c@ == commands(after))
        },
        _ => after == before && out is None,
    }
}

/// A failed reading does not stop the loop: the iteration leaves the state as it was
/// and writes nothing, and the next iteration with a good reading samples, estimates
/// and commands exactly as it would have without the failure.
pub proof fn lemma_loop_resumes_after_failure(
    v0: ControllerView,
    v1: ControllerView,
    v2: ControllerView,
    ticks: Seq<i32>,
    now1: u64,
    now2: u64,
    out1: Option<Vec<i64>>,
    out2: Option<Vec<i64>>,
)
    requires
        v0.wf(),
        ticks.len() == v0.ids.len(),
        step_done(v0, None, now1, v1, out1),
        step_done(v1, Some(ticks), now2, v2, out2),
    ensures
        v1 == v0,
        out1 is None,
        v2 == after_sample(v0, ticks, now2),
        v0.law == ControlLaw::Proportional ==> (out2 matches Some(c) && c@ == commands(v2)),
{
}

/// The state of a controller.
pub struct ControllerState {
    ids: Vec<u8>,
    law: ControlLaw,
    gains: Vec<i64>,
    goal_position: Vec<i64>,
    measured_speed: Vec<i64>,
    present_position: Vec<i64>,
    phase: u64,
    speed_origin: Vec<i64>,
    speed_origin_us: u64,
}

/// What a controller holds, as plain sequences.
pub struct ControllerView {
    /// The managed ids, in the order that every vector follows.
    pub ids: Seq<u8>,
    /// What the loop does besides sampling.
    pub law: ControlLaw,
    /// The gain of each servo, in thousandths of a command unit per radian.
    pub gains: Seq<i64>,
    /// The goal position of each servo, in microradians.
    pub goal_position: Seq<i64>,
    /// The last estimated speed of each servo, in microradians per second.
    pub measured_speed: Seq<i64>,
    /// The last sampled position of each servo, in microradians.
    pub present_position: Seq<i64>,
    /// Successful iterations since the last speed estimate, modulo [`SPEED_DECIMATION`].
    pub phase: u64,
    /// The positions where the current speed interval starts, in microradians.
    pub speed_origin: Seq<i64>,
    /// When the current speed interval starts, in microseconds on the loop's clock.
    pub speed_origin_us: u64,
}

impl ControllerView {
    /// One entry per id in every vector; sampled positions within the range of a tick.
    pub open spec fn wf(&self) -> bool {
        &&& self.gains.len() == self.ids.len()
        &&& self.goal_position.len() == self.ids.len()
        &&& self.measured_speed.len() == self.ids.len()
        &&& self.present_position.len() == self.ids.len()
        &&& self.speed_origin.len() == self.ids.len()
        &&& self.phase < SPEED_DECIMATION
        &&& forall|i: int| 0 <= i < self.ids.len() ==> -MAX_TICK_ANGLE <= #[trigger] self.present_position[i] <= MAX_TICK_ANGLE
        &&& forall|i: int| 0 <= i < self.ids.len() ==> -MAX_TICK_ANGLE <= #[trigger] self.speed_origin[i] <= MAX_TICK_ANGLE
    }
}

impl View for ControllerState {
    type V = ControllerView;

    closed spec fn view(&self) -> ControllerView {
        ControllerView {
            ids: self.ids@,
            law: self.law,
            gains: self.gains@,
            goal_position: self.goal_position@,
            measured_speed: self.measured_speed@,
            present_position: self.present_position@,
            phase: self.phase,
            speed_origin: self.speed_origin@,
            speed_origin_us: self.speed_origin_us,
        }
    }
}

impl ControllerState {
    /// One entry per id in every vector; sampled positions within the range of a tick.
    pub open spec fn wf(&self) -> bool {
        self@.wf()
    }

    /// A controller of `ids` whose servos stood at `present_ticks` at `now_us`, with the
    /// gains and goals given and every speed zero.
    pub fn new(
        ids: Vec<u8>,
        law: ControlLaw,
        gains: Vec<i64>,
        goal_position: Vec<i64>,
        present_ticks: &Vec<i32>,
        now_us: u64,
    ) -> (r: Result<Self, BusError>)
        ensures
            gains@.len() != ids@.len() || goal_position@.len() != ids@.len() || present_ticks@.len() != ids@.len()
                ==> (r matches Err(BusError::PreconditionViolation)),
            gains@.len() == ids@.len() && goal_position@.len() == ids@.len() && present_ticks@.len() == ids@.len()
                ==> (r matches Ok(s) && s.wf() && s@ == initial_view(ids@, law, gains@, goal_position@, present_ticks@, now_us)),
    {
        if gains.len() != ids.len() || goal_position.len() != ids.len() || present_ticks.len() != ids.len() {
            return Err(BusError::PreconditionViolation);
        }
        let present = angles_of(present_ticks);
        let zeros: Vec<i64> = vec![0i64; ids.len()];
        proof {
            assert(zeros@ =~= uniform(ids@.len(), 0i64));
        }
        Ok(ControllerState {
            ids,
            law,
            gains,
            goal_position,
            measured_speed: zeros,
            present_position: present.clone(),
            phase: 0,
            speed_origin: present,
            speed_origin_us: now_us,
        })
    }

    /// Replaces the goal positions wholesale; a vector of another length is refused and
    /// nothing changes.
    pub fn set_new_target(&mut self, goal_position: Vec<i64>) -> (r: Result<(), BusError>)
        requires
            old(self).wf(),
        ensures
            final(self).wf(),
            goal_position@.len() != old(self)@.ids.len() ==> (r matches Err(BusError::PreconditionViolation))
                && final(self)@ == old(self)@,
            goal_position@.len() == old(self)@.ids.len() ==> (r matches Ok(_))
                && final(self)@ == (ControllerView { goal_position: goal_position@, ..old(self)@ }),
    {
        if goal_position.len() != self.ids.len() {
            return Err(BusError::PreconditionViolation);
        }
        self.goal_position = goal_position;
        Ok(())
    }
    /// Replaces the gains wholesale; a vector of another length is refused and nothing
    /// changes.
    pub fn set_new_gains(&mut self, gains: Vec<i64>) -> (r: Result<(), BusError>)
        requires
            old(self).wf(),
        ensures
            final(self).wf(),
            gains@.len() != old(self)@.ids.len() ==> (r matches Err(BusError::PreconditionViolation))
                && final(self)@ == old(self)@,
            gains@.len() == old(self)@.ids.len() ==> (r matches Ok(_))
                && final(self)@ == (ControllerView { gains: gains@, ..old(self)@ }),
    {
        if gains.len() != self.ids.len() {
            return Err(BusError::PreconditionViolation);
        }
        self.gains = gains;
        Ok(())
    }

    /// A copy of the measured speeds.
    pub fn get_current_speed(&self) -> (r: Vec<i64>)
        ensures
            r@ == self@.measured_speed,
    {
        self.measured_speed.clone()
    }

    /// A copy of the last sampled positions.
    pub fn get_present_position(&self) -> (r: Vec<i64>)
        ensures
            r@ == self@.present_position,
    {
        self.present_position.clone()
    }

    /// A copy of the goal positions.
    pub fn get_goal_position(&self) -> (r: Vec<i64>)
        ensures
            r@ == self@.goal_position,
    {
        self.goal_position.clone()
    }

    /// A copy of the managed ids.
    pub fn ids(&self) -> (r: Vec<u8>)
        ensures
            r@ == self@.ids,
    {
        self.ids.clone()
    }

    /// Replaces the sampled positions with a reading taken outside the loop; a reading
    /// of another length is refused and nothing changes.
    pub fn record_present_position(&mut self, ticks: &Vec<i32>) -> (r: Result<(), BusError>)
        requires
            old(self).wf(),
        ensures
            final(self).wf(),
            ticks@.len() != old(self)@.ids.len() ==> (r matches Err(BusError::PreconditionViolation))
                && final(self)@ == old(self)@,
            ticks@.len() == old(self)@.ids.len() ==> (r matches Ok(_)) && final(self)@ == (ControllerView {
                present_position: ticks@.map_values(|t: i32| tick_angle(t as int) as i64),
                ..old(self)@
            }),
    {
        if ticks.len() != self.ids.len() {
            return Err(BusError::PreconditionViolation);
        }
        self.present_position = angles_of(ticks);
        Ok(())
    }

    /// One iteration of the loop, given its reading of the present positions at
    /// `now_us`. A failed reading, or one with a position count other than the ids',
    /// changes nothing and asks for no write; the loop goes on with the next period.
    /// Otherwise the state moves on as [`after_sample`] says and, under the
    /// proportional law, the commands to write to the goal time register come back.
    pub fn step(&mut self, reading: &Result<Vec<i32>, BusError>, now_us: u64) -> (out: Option<Vec<i64>>)
        requires
            old(self).wf(),
        ensures
            final(self).wf(),
            step_done(old(self)@, sampled(*reading), now_us, final(self)@, out),
    {
        let ticks = match reading {
            Ok(ticks) => ticks,
            Err(_) => return None,
        };
        if ticks.len() != self.ids.len() {
            return None;
        }
        let present = angles_of(ticks);
        let ghost before = self@;
        if self.phase == 0 && now_us > self.speed_origin_us {
            let dt: u64 = now_us - self.speed_origin_us;
            let mut speeds: Vec<i64> = Vec::new();
            let mut i: usize = 0;
            while i < present.len()
                invariant
                    0 <= i <= present@.len(),
                    present@.len() == self.speed_origin@.len(),
                    dt == now_us - self.speed_origin_us,
                    dt > 0,
                    self.wf(),
                    forall|j: int| 0 <= j < present@.len() ==> -MAX_TICK_ANGLE <= #[trigger] present@[j] <= MAX_TICK_ANGLE,
                    speeds@.len() == i,
                    forall|j: int| 0 <= j < i ==> #[trigger] speeds@[j] == speed_estimate(
                        self.speed_origin@[j] as int,
                        present@[j] as int,
                        dt as int,
                    ) as i64,
                decreases present@.len() - i,
            {
                speeds.push(estimate(self.speed_origin[i], present[i], dt));
                i += 1;
            }
            self.measured_speed = speeds;
            self.speed_origin = present.clone();
            self.speed_origin_us = now_us;
            proof {
                assert(self@.measured_speed =~= after_sample(before, ticks@, now_us).measured_speed);
            }
        }
        self.present_position = present;
        self.phase = (self.phase + 1) % SPEED_DECIMATION;
        proof {
            assert(self@ =~= after_sample(before, ticks@, now_us));
        }
        match self.law {
            ControlLaw::Telemetry => None,
            ControlLaw::Proportional => {
                let mut out: Vec<i64> = Vec::new();
                let mut i: usize = 0;
                while i < self.ids.len()
                    invariant
                        0 <= i <= self@.ids.len(),
                        self.wf(),
                        out@.len() == i,
                        forall|j: int| 0 <= j < i ==> #[trigger] out@[j] == commands(self@)[j],
                    decreases self@.ids.len() - i,
                {
                    let c = command_for(self.gains[i], self.goal_position[i], self.present_position[i]);
                    out.push(pack(c));
                    i += 1;
                }
                proof {
                    assert(out@ =~= commands(self@));
                }
                Some(out)
            },
        }
    }
}

/// At every point in time, each of the four vectors of a controller has one entry per
/// managed id: every constructor establishes [`ControllerState::wf`] and every
/// operation keeps it.
pub proof fn lemma_vectors_match_ids(s: &ControllerState)
    requires
        s.wf(),
    ensures
        s@.gains.len() == s@.ids.len(),
        s@.goal_position.len() == s@.ids.len(),
        s@.measured_speed.len() == s@.ids.len(),
        s@.present_position.len() == s@.ids.len(),
{
}

/// The angles of ticks, in microradians.
fn angles_of(ticks: &Vec<i32>) -> (angles: Vec<i64>)
    ensures
        angles@ == ticks@.map_values(|t: i32| tick_angle(t as int) as i64),
        forall|i: int| 0 <= i < angles@.len() ==> -MAX_TICK_ANGLE <= #[trigger] angles@[i] <= MAX_TICK_ANGLE,
{
    let mut angles: Vec<i64> = Vec::new();
    let mut i: usize = 0;
    while i < ticks.len()
        invariant
            0 <= i <= ticks@.len(),
            angles@ == ticks@.take(i as int).map_values(|t: i32| tick_angle(t as int) as i64),
            forall|j: int| 0 <= j < i ==> -MAX_TICK_ANGLE <= #[trigger] angles@[j] <= MAX_TICK_ANGLE,
        decreases ticks@.len() - i,
    {
        angles.push(ticks_to_microradians(ticks[i]));
        proof {
            assert(ticks@.take(i + 1) == ticks@.take(i as int).push(ticks@[i as int]));
        }
        i += 1;
    }
    assert(ticks@.take(ticks@.len() as int) == ticks@);
    angles
}


/// Ticks as the integers a register write takes.
pub open spec fn widen(ticks: Seq<i32>) -> Seq<i64> {
    ticks.map_values(|t: i32| t as i64)
}

fn widened(ticks: &Vec<i32>) -> (r: Vec<i64>)
    ensures
        r@ == widen(ticks@),
{
    let mut r: Vec<i64> = Vec::new();
    let mut i: usize = 0;
    while i < ticks.len()
        invariant
            0 <= i <= ticks@.len(),
            r@ == widen(ticks@.take(i as int)),
        decreases ticks@.len() - i,
    {
        r.push(ticks[i] as i64);
        proof {
            assert(ticks@.take(i + 1) == ticks@.take(i as int).push(ticks@[i as int]));
            assert(widen(ticks@.take(i + 1)) =~= widen(ticks@.take(i as int)).push(ticks@[i as int] as i64));
        }
        i += 1;
    }
    assert(ticks@.take(ticks@.len() as int) == ticks@);
    r
}

/// The writes of a freeze after its read of `ticks`: the ticks as goal positions, then
/// position mode, then torque on; each only after the one before it succeeded.
pub open spec fn hold_done(h1: Seq<BusOp>, h: Seq<BusOp>, ids: Seq<u8>, ticks: Seq<i32>, r: Result<(), BusError>) -> bool {
    exists|h2: Seq<BusOp>, w1: Result<(), BusError>|
        #[trigger] write_done(h1, h2, GOAL_POSITION@, ids, widen(ticks), w1) && match w1 {
            Err(e) => h == h2 && r == Err::<(), BusError>(e),
            Ok(_) => exists|h3: Seq<BusOp>, w2: Result<(), BusError>|
                #[trigger] write_done(h2, h3, MODE@, ids, uniform(ids.len(), POSITION_MODE as i64), w2) && match w2 {
                    Err(e) => h == h3 && r == Err::<(), BusError>(e),
                    Ok(_) => write_done(h3, h, TORQUE_ENABLE@, ids, uniform(ids.len(), 1i64), r),
                },
        }
}

/// A freeze of `ids` took place from history `h0` to `h`: one read of the present
/// positions, then, if it succeeded, the writes of [`hold_done`]; `r` holds the ticks
/// read when every step succeeded, else the first error.
pub open spec fn freeze_done(h0: Seq<BusOp>, h: Seq<BusOp>, ids: Seq<u8>, r: Result<Vec<i32>, BusError>) -> bool {
    exists|h1: Seq<BusOp>, read: Result<Vec<i32>, BusError>|
        #[trigger] read_ticks_done(h0, h1, PRESENT_POSITION@, ids, read) && match read {
            Err(e) => h == h1 && r == Err::<Vec<i32>, BusError>(e),
            Ok(ticks) => exists|w: Result<(), BusError>|
                #[trigger] hold_done(h1, h, ids, ticks@, w) && match w {
                    Err(e) => r == Err::<Vec<i32>, BusError>(e),
                    Ok(_) => r == Ok::<Vec<i32>, BusError>(ticks),
                },
        }
}

/// Torque release of `ids` took place from history `h0` to `h`: position mode, then, if
/// that succeeded, torque off.
pub open spec fn release_done(h0: Seq<BusOp>, h: Seq<BusOp>, ids: Seq<u8>, r: Result<(), BusError>) -> bool {
    exists|h1: Seq<BusOp>, w: Result<(), BusError>|
        #[trigger] write_done(h0, h1, MODE@, ids, uniform(ids.len(), POSITION_MODE as i64), w) && match w {
            Err(e) => h == h1 && r == Err::<(), BusError>(e),
            Ok(_) => write_done(h1, h, TORQUE_ENABLE@, ids, uniform(ids.len(), 0i64), r),
        }
}

/// Pins every servo of `ids` where it stands, bypassing the loop's sampled copy: reads
/// the present positions, writes them back as goal positions, sets position mode and
/// turns torque on. Stops at the first failure. On success the ticks read come back, for
/// the caller to record with [`ControllerState::record_present_position`].
pub fn freeze<T: Transport>(io: &mut Io<T>, ids: &Vec<u8>) -> (r: Result<Vec<i32>, BusError>)
    ensures
        freeze_done(old(io).history(), final(io).history(), ids@, r),
{
    let ghost h0 = io.history();
    let read: Result<Vec<i32>, BusError> = io.read_ticks(PRESENT_POSITION, ids);
    let ghost h1 = io.history();
    assert(read_ticks_done(h0, h1, PRESENT_POSITION@, ids@, read));
    let ticks = match read {
        Err(e) => return Err(e),
        Ok(ticks) => ticks,
    };
    let goals = widened(&ticks);
    let w1 = io.write(GOAL_POSITION, ids, &goals);
    let ghost h2 = io.history();
    assert(write_done(h1, h2, GOAL_POSITION@, ids@, widen(ticks@), w1));
    if let Err(e) = w1 {
        assert(hold_done(h1, h2, ids@, ticks@, Err(e)));
        return Err(e);
    }
    let w2 = io.set_mode(ids, POSITION_MODE);
    let ghost h3 = io.history();
    assert(write_done(h2, h3, MODE@, ids@, uniform(ids@.len(), POSITION_MODE as i64), w2));
    if let Err(e) = w2 {
        assert(hold_done(h1, h3, ids@, ticks@, Err(e)));
        return Err(e);
    }
    let w3 = io.enable_torque(ids);
    assert(hold_done(h1, io.history(), ids@, ticks@, w3));
    match w3 {
        Err(e) => Err(e),
        Ok(()) => Ok(ticks),
    }
}

/// A controller start took place from history `h0` to `h`: the operating mode of every
/// servo set for the drive command, then, if that succeeded, one read of the present
/// positions to seed the controller.
pub open spec fn start_done(
    h0: Seq<BusOp>,
    h: Seq<BusOp>,
    ids: Seq<u8>,
    law: ControlLaw,
    gains: Seq<i64>,
    goal_position: Seq<i64>,
    now_us: u64,
    r: Result<ControllerState, BusError>,
) -> bool {
    exists|h1: Seq<BusOp>, w: Result<(), BusError>|
        #[trigger] write_done(h0, h1, MODE@, ids, uniform(ids.len(), PWM_MODE as i64), w) && match w {
            Err(e) => h == h1 && r == Err::<ControllerState, BusError>(e),
            Ok(_) => exists|read: Result<Vec<i32>, BusError>|
                #[trigger] read_ticks_done(h1, h, PRESENT_POSITION@, ids, read) && match read {
                    Err(e) => r == Err::<ControllerState, BusError>(e),
                    Ok(ticks) => (r matches Ok(s) && s.wf()
                        && s@ == initial_view(ids, law, gains, goal_position, ticks@, now_us)),
                },
        }
}

/// Starts a controller of `ids` on the bus: checks that there is one gain and one goal
/// per id, sets every servo into the mode of the drive command, and seeds the sampled
/// positions with one read. Nothing is sent when the lengths differ.
pub fn start<T: Transport>(
    io: &mut Io<T>,
    ids: Vec<u8>,
    law: ControlLaw,
    gains: Vec<i64>,
    goal_position: Vec<i64>,
    now_us: u64,
) -> (r: Result<ControllerState, BusError>)
    ensures
        gains@.len() != ids@.len() || goal_position@.len() != ids@.len() ==> final(io).history() == old(io).history()
            && (r matches Err(BusError::PreconditionViolation)),
        gains@.len() == ids@.len() && goal_position@.len() == ids@.len() ==> start_done(
            old(io).history(),
            final(io).history(),
            ids@,
            law,
            gains@,
            goal_position@,
            now_us,
            r,
        ),
{
    if gains.len() != ids.len() || goal_position.len() != ids.len() {
        return Err(BusError::PreconditionViolation);
    }
    let ghost h0 = io.history();
    let w = io.set_mode(&ids, PWM_MODE);
    let ghost h1 = io.history();
    assert(write_done(h0, h1, MODE@, ids@, uniform(ids@.len(), PWM_MODE as i64), w));
    if let Err(e) = w {
        return Err(e);
    }
    let read: Result<Vec<i32>, BusError> = io.read_ticks(PRESENT_POSITION, &ids);
    let ghost h2 = io.history();
    let ghost rd = read;
    assert(read_ticks_done(h1, h2, PRESENT_POSITION@, ids@, rd));
    match read {
        Err(e) => {
            assert(rd == Err::<Vec<i32>, BusError>(e));
            Err(e)
        },
        Ok(ticks) => {
            assert(ticks@.len() == ids@.len());
            assert(rd == Ok::<Vec<i32>, BusError>(ticks));
            let ghost (ids0, gains0, goals0) = (ids@, gains@, goal_position@);
            let r = ControllerState::new(ids, law, gains, goal_position, &ticks, now_us);
            assert(start_done(h0, h2, ids0, law, gains0, goals0, now_us, r));
            r
        },
    }
}

/// Releases every servo of `ids`: position mode, then torque off. Stops at the first
/// failure.
pub fn disable_torque<T: Transport>(io: &mut Io<T>, ids: &Vec<u8>) -> (r: Result<(), BusError>)
    ensures
        release_done(old(io).history(), final(io).history(), ids@, r),
{
    let ghost h0 = io.history();
    let w = io.set_mode(ids, POSITION_MODE);
    let ghost h1 = io.history();
    assert(write_done(h0, h1, MODE@, ids@, uniform(ids@.len(), POSITION_MODE as i64), w));
    if let Err(e) = w {
        return Err(e);
    }
    io.disable_torque(ids)
}

} // verus!
