use feetech_io::control_table::{GOAL_POSITION, MODE, PRESENT_POSITION, TORQUE_ENABLE};
use feetech_io::controller::{
    disable_torque, freeze, pace, period_us, start, ControlLaw, ControllerState, Pacing,
};
use feetech_io::registers::{BusError, Io, Transport};
use feetech_io::units::ticks_to_microradians;
use rustypot::servo::feetech::sts3215;
use std::collections::HashMap;

fn addr(name: &str) -> u8 {
    sts3215::register(name).unwrap().addr
}

/// A bus of servos whose control tables live in memory.
#[derive(Default)]
struct TableBus {
    tables: HashMap<(u8, u8), u8>,
    writes: Vec<(Vec<u8>, u8, Vec<Vec<u8>>)>,
    fail_writes_at: Option<u8>,
}

impl TableBus {
    fn with_positions(ids: &[u8], ticks: &[i32]) -> TableBus {
        let mut bus = TableBus::default();
        for (id, t) in ids.iter().zip(ticks) {
            let [lo, hi] = (*t as u16).to_le_bytes();
            bus.tables.insert((*id, addr(PRESENT_POSITION)), lo);
            bus.tables.insert((*id, addr(PRESENT_POSITION) + 1), hi);
        }
        bus
    }
}

impl Transport for TableBus {
    fn sync_read(&mut self, ids: &Vec<u8>, address: u8, width: u8) -> Result<Vec<Vec<u8>>, String> {
        Ok(ids
            .iter()
            .map(|id| (0..width).map(|k| *self.tables.get(&(*id, address + k)).unwrap_or(&0)).collect())
            .collect())
    }

    fn sync_write(&mut self, ids: &Vec<u8>, address: u8, data: &Vec<Vec<u8>>) -> Result<(), String> {
        if self.fail_writes_at == Some(address) {
            return Err("no answer".to_string());
        }
        self.writes.push((ids.clone(), address, data.clone()));
        for (id, bytes) in ids.iter().zip(data) {
            for (k, b) in bytes.iter().enumerate() {
                self.tables.insert((*id, address + k as u8), *b);
            }
        }
        Ok(())
    }
}

fn proportional(ids: Vec<u8>, gains: Vec<i64>, goals: Vec<i64>) -> ControllerState {
    let ticks = vec![2048i32; ids.len()];
    ControllerState::new(ids, ControlLaw::Proportional, gains, goals, &ticks, 0).unwrap()
}

#[test]
fn vectors_keep_one_entry_per_id() {
    let mut c = proportional(vec![1, 2, 3], vec![1, 2, 3], vec![0, 0, 0]);
    assert!(matches!(c.set_new_target(vec![1, 2]), Err(BusError::PreconditionViolation)));
    assert!(matches!(c.set_new_gains(vec![1, 2, 3, 4]), Err(BusError::PreconditionViolation)));
    assert!(matches!(c.record_present_position(&vec![0]), Err(BusError::PreconditionViolation)));
    assert_eq!(c.get_goal_position(), vec![0, 0, 0]);
    c.set_new_target(vec![7, 8, 9]).unwrap();
    c.set_new_gains(vec![4, 5, 6]).unwrap();
    assert_eq!(c.get_goal_position(), vec![7, 8, 9]);
    assert_eq!(c.get_current_speed().len(), 3);
    assert_eq!(c.get_present_position().len(), 3);
    let ticks = vec![2048i32; 2];
    let r = ControllerState::new(vec![1, 2, 3], ControlLaw::Telemetry, vec![0; 3], vec![0; 2], &ticks, 0);
    assert!(matches!(r, Err(BusError::PreconditionViolation)));
}

#[test]
fn proportional_commands_are_packed_with_direction() {
    let mut c = proportional(vec![1, 2, 3], vec![500_000, 500_000, 5_000_000], vec![1_000_000, -1_000_000, 1_000_000]);
    let out = c.step(&Ok(vec![2048, 2048, 2048]), 1_000);
    // +500, -500, and +5000 limited to +1000
    assert_eq!(out, Some(vec![1024 + 500, 500, 1024 + 1000]));
}

#[test]
fn telemetry_law_writes_nothing() {
    let ticks = vec![2048i32];
    let mut c = ControllerState::new(vec![1], ControlLaw::Telemetry, vec![100], vec![1_000_000], &ticks, 0).unwrap();
    assert_eq!(c.step(&Ok(vec![3072]), 20_000), None);
    assert_eq!(c.get_present_position(), vec![1_570_796]);
}

#[test]
fn speed_is_estimated_every_second_iteration() {
    let ticks = vec![2048i32];
    let mut c = ControllerState::new(vec![1], ControlLaw::Telemetry, vec![0], vec![0], &ticks, 0).unwrap();
    // first successful iteration: a quarter turn in 0.5 s
    c.step(&Ok(vec![3072]), 500_000);
    assert_eq!(c.get_current_speed(), vec![3_141_592]);
    // second: no estimate
    c.step(&Ok(vec![2048]), 1_000_000);
    assert_eq!(c.get_current_speed(), vec![3_141_592]);
    // third: back to the centre over 1 s since the last estimate
    c.step(&Ok(vec![2048]), 1_500_000);
    assert_eq!(c.get_current_speed(), vec![-1_570_796]);
}

#[test]
fn loop_goes_on_after_one_failed_read() {
    let mut c = proportional(vec![1, 2], vec![500_000, 500_000], vec![1_000_000, -1_000_000]);
    for iteration in 0..20u64 {
        let reading = if iteration == 10 {
            Err(BusError::IoFailure("timeout".to_string()))
        } else {
            Ok(vec![2048i32, 2048])
        };
        let out = c.step(&reading, iteration * 20_000);
        if iteration == 10 {
            assert_eq!(out, None);
        } else {
            assert_eq!(out, Some(vec![1524, 500]), "iteration {iteration}");
        }
    }
}

#[test]
fn reading_of_wrong_length_changes_nothing() {
    let mut c = proportional(vec![1, 2], vec![500_000, 500_000], vec![0, 0]);
    assert_eq!(c.step(&Ok(vec![3000]), 20_000), None);
    assert_eq!(c.get_present_position(), vec![0, 0]);
}

#[test]
fn fifty_hertz_gives_fifty_iterations_a_second() {
    let period = period_us(50_000).unwrap();
    assert_eq!(period, 20_000);
    let mut clock: u64 = 0;
    let mut iterations = 0;
    let mut overruns = 0;
    while clock < 1_000_000 {
        let work = 40;
        clock += work;
        iterations += 1;
        match pace(work, period) {
            Pacing::Sleep(us) => clock += us,
            Pacing::Overrun => overruns += 1,
        }
    }
    assert!((48..=52).contains(&iterations));
    assert_eq!(overruns, 0);
}

#[test]
fn slow_iteration_is_an_overrun() {
    assert_eq!(pace(20_000, 20_000), Pacing::Overrun);
    assert_eq!(pace(25_000, 20_000), Pacing::Overrun);
    assert_eq!(pace(1_000, 20_000), Pacing::Sleep(19_000));
    assert!(matches!(period_us(0), Err(BusError::PreconditionViolation)));
    assert_eq!(period_us(1_500).unwrap(), 666_666);
}

#[test]
fn start_sets_pwm_mode_and_seeds_positions() {
    let mut io = Io::new(TableBus::with_positions(&[1, 2], &[3072, 1024]));
    let c = start(&mut io, vec![1, 2], ControlLaw::Proportional, vec![1, 1], vec![0, 0], 5).unwrap();
    assert_eq!(io.transport().writes[0], (vec![1, 2], addr(MODE), vec![vec![2], vec![2]]));
    assert_eq!(c.get_present_position(), vec![1_570_796, -1_570_796]);
    assert_eq!(c.get_current_speed(), vec![0, 0]);
    let r = start(&mut io, vec![1, 2], ControlLaw::Proportional, vec![1], vec![0, 0], 5);
    assert!(matches!(r, Err(BusError::PreconditionViolation)));
    assert_eq!(io.transport().writes.len(), 1);
}

#[test]
fn freeze_then_present_position_is_what_freeze_read() {
    let ids = vec![1u8, 2];
    let mut io = Io::new(TableBus::with_positions(&ids, &[2048, 2048]));
    let mut c = start(&mut io, ids.clone(), ControlLaw::Proportional, vec![1, 1], vec![0, 0], 0).unwrap();
    // the servos move after the last loop iteration
    let moved = TableBus::with_positions(&ids, &[3000, 100]).tables;
    io = Io::new(TableBus { tables: moved, ..TableBus::default() });
    let ticks = freeze(&mut io, &ids).unwrap();
    assert_eq!(ticks, vec![3000, 100]);
    c.record_present_position(&ticks).unwrap();
    assert_eq!(
        c.get_present_position(),
        vec![ticks_to_microradians(3000), ticks_to_microradians(100)]
    );
    let writes = &io.transport().writes;
    assert_eq!(writes.len(), 3);
    assert_eq!(writes[0], (ids.clone(), addr(GOAL_POSITION), vec![3000u16.to_le_bytes().to_vec(), 100u16.to_le_bytes().to_vec()]));
    assert_eq!(writes[1], (ids.clone(), addr(MODE), vec![vec![0], vec![0]]));
    assert_eq!(writes[2], (ids.clone(), addr(TORQUE_ENABLE), vec![vec![1], vec![1]]));
}

#[test]
fn freeze_stops_at_first_failure() {
    let ids = vec![1u8];
    let mut bus = TableBus::with_positions(&ids, &[2048]);
    bus.fail_writes_at = Some(addr(MODE));
    let mut io = Io::new(bus);
    assert!(matches!(freeze(&mut io, &ids), Err(BusError::IoFailure(_))));
    assert_eq!(io.transport().writes.len(), 1);
}

#[test]
fn disable_torque_clears_mode_then_torque() {
    let ids = vec![4u8, 5];
    let mut io = Io::new(TableBus::default());
    disable_torque(&mut io, &ids).unwrap();
    let writes = &io.transport().writes;
    assert_eq!(writes[0], (ids.clone(), addr(MODE), vec![vec![0], vec![0]]));
    assert_eq!(writes[1], (ids.clone(), addr(TORQUE_ENABLE), vec![vec![0], vec![0]]));
}

#[test]
fn fractional_gains_are_kept() {
    // a gain of 2.5 command units per radian, in thousandths
    let mut c = proportional(vec![1], vec![2_500], vec![1_000_000]);
    assert_eq!(c.step(&Ok(vec![2048]), 1_000), Some(vec![1024 + 2]));
    let mut c = proportional(vec![1], vec![2_500], vec![2_000_000]);
    assert_eq!(c.step(&Ok(vec![2048]), 1_000), Some(vec![1024 + 5]));
}
