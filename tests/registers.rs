use feetech_io::control_table::{GOAL_POSITION, MODE, MODEL, OFFSET, TORQUE_ENABLE};
use feetech_io::registers::{BusError, Io, Transport};
use rustypot::servo::feetech::sts3215;
use std::collections::HashMap;

fn addr(name: &str) -> u8 {
    sts3215::register(name).unwrap().addr
}

/// A bus of servos whose control tables live in memory.
#[derive(Default)]
struct TableBus {
    tables: HashMap<(u8, u8), u8>,
    writes: Vec<(Vec<u8>, u8, Vec<Vec<u8>>)>,
    reads: usize,
    fail_next: bool,
    short_replies: bool,
}

impl Transport for TableBus {
    fn sync_read(&mut self, ids: &Vec<u8>, address: u8, width: u8) -> Result<Vec<Vec<u8>>, String> {
        self.reads += 1;
        if self.fail_next {
            self.fail_next = false;
            return Err("timeout".to_string());
        }
        let width = if self.short_replies { width - 1 } else { width };
        Ok(ids
            .iter()
            .map(|id| {
                (0..width)
                    .map(|k| *self.tables.get(&(*id, address + k)).unwrap_or(&0))
                    .collect()
            })
            .collect())
    }

    fn sync_write(&mut self, ids: &Vec<u8>, address: u8, data: &Vec<Vec<u8>>) -> Result<(), String> {
        if self.fail_next {
            self.fail_next = false;
            return Err("timeout".to_string());
        }
        self.writes.push((ids.clone(), address, data.clone()));
        for (id, bytes) in ids.iter().zip(data) {
            for (k, b) in bytes.iter().enumerate() {
                self.tables.insert((*id, address + k as u8), *b);
            }
        }
        Ok(())
    }
}

fn bus_with_models(ids: &[u8], model: u16) -> TableBus {
    let mut bus = TableBus::default();
    for id in ids {
        bus.tables.insert((*id, addr(MODEL)), (model % 256) as u8);
        bus.tables.insert((*id, addr(MODEL) + 1), (model / 256) as u8);
    }
    bus
}

#[test]
fn model_is_returned_unconverted() {
    let mut io = Io::new(bus_with_models(&[1, 2, 3], 777));
    let models = io.get_model(&vec![1, 2, 3]).unwrap();
    assert_eq!(models, vec![777, 777, 777]);
}

#[test]
fn quarter_turn_goal_is_written_as_tick_3072() {
    let mut io = Io::new(TableBus::default());
    io.set_goal_position(&vec![5], &vec![1_570_796]).unwrap();
    let writes = &io.transport().writes;
    assert_eq!(writes.len(), 1);
    assert_eq!(writes[0], (vec![5], addr(GOAL_POSITION), vec![vec![0x00, 0x0c]]));
    let back = io.get_goal_position(&vec![5]).unwrap();
    assert_eq!(back.len(), 1);
    assert!((back[0] - 1_570_796).abs() <= 1534);
}

#[test]
fn get_after_set_returns_what_was_set() {
    let ids = vec![3, 7, 11, 12];
    let mut io = Io::new(TableBus::default());
    io.set_torque_limit(&ids, &vec![0, 1, 500, 65535]).unwrap();
    assert_eq!(io.get_torque_limit(&ids).unwrap(), vec![0, 1, 500, 65535]);
    io.set_offset(&ids, &vec![-2047, -1, 0, 2047]).unwrap();
    assert_eq!(io.get_offset(&ids).unwrap(), vec![-2047, -1, 0, 2047]);
    io.set_p_coefficient(&ids, &vec![32, 0, 255, 8]).unwrap();
    assert_eq!(io.get_p_coefficient(&ids).unwrap(), vec![32, 0, 255, 8]);
    io.set_goal_speed(&ids, &vec![-1_570_796, 0, 1_570_796, 3_000]).unwrap();
    assert_eq!(io.get_goal_speed(&ids).unwrap(), vec![-1_570_796, 0, 1_570_796, 3_068]);
}

#[test]
fn set_with_mismatched_lengths_is_refused() {
    let mut io = Io::new(TableBus::default());
    let r = io.set_torque_limit(&vec![1, 2, 3], &vec![10, 20]);
    assert!(matches!(r, Err(BusError::PreconditionViolation)));
    let r = io.set_goal_position(&vec![1], &vec![0, 0]);
    assert!(matches!(r, Err(BusError::PreconditionViolation)));
    assert!(io.transport().writes.is_empty());
}

#[test]
fn too_many_ids_are_refused() {
    let ids: Vec<u8> = (0..=251).collect();
    let mut io = Io::new(TableBus::default());
    assert!(matches!(io.get_status(&ids), Err(BusError::PreconditionViolation)));
    assert_eq!(io.transport().reads, 0);
    let ids: Vec<u8> = (0..84).collect();
    let values = vec![0i64; 84];
    assert!(matches!(io.set_goal_time(&ids, &values), Err(BusError::PreconditionViolation)));
    let ids: Vec<u8> = (0..83).collect();
    let values = vec![0i64; 83];
    assert!(io.set_goal_time(&ids, &values).is_ok());
}

#[test]
fn empty_ids_need_no_transaction() {
    let mut io = Io::new(TableBus::default());
    assert_eq!(io.get_present_load(&vec![]).unwrap(), Vec::<i64>::new());
    io.set_lock(&vec![], &vec![]).unwrap();
    assert_eq!(io.transport().reads, 0);
    assert!(io.transport().writes.is_empty());
}

#[test]
fn transport_failure_is_an_io_failure() {
    let mut bus = TableBus::default();
    bus.fail_next = true;
    let mut io = Io::new(bus);
    assert!(matches!(io.get_present_position(&vec![1]), Err(BusError::IoFailure(_))));
    let mut bus = TableBus::default();
    bus.fail_next = true;
    let mut io = Io::new(bus);
    assert!(matches!(io.set_acceleration(&vec![1], &vec![9]), Err(BusError::IoFailure(_))));
}

#[test]
fn reply_of_wrong_width_is_an_io_failure() {
    let mut bus = bus_with_models(&[1], 777);
    bus.short_replies = true;
    let mut io = Io::new(bus);
    assert!(matches!(io.get_model(&vec![1]), Err(BusError::IoFailure(_))));
}

#[test]
fn torque_helpers_write_all_ones_or_zeros() {
    let mut io = Io::new(TableBus::default());
    io.enable_torque(&vec![1, 2]).unwrap();
    io.disable_torque(&vec![4]).unwrap();
    io.set_mode(&vec![1, 2, 3], 2).unwrap();
    let writes = &io.transport().writes;
    assert_eq!(writes[0], (vec![1, 2], addr(TORQUE_ENABLE), vec![vec![1], vec![1]]));
    assert_eq!(writes[1], (vec![4], addr(TORQUE_ENABLE), vec![vec![0]]));
    assert_eq!(writes[2], (vec![1, 2, 3], addr(MODE), vec![vec![2], vec![2], vec![2]]));
}

#[test]
fn offset_is_sign_magnitude_on_the_wire() {
    let mut io = Io::new(TableBus::default());
    io.set_offset(&vec![1], &vec![-709]).unwrap();
    assert_eq!(io.transport().writes[0], (vec![1], addr(OFFSET), vec![vec![0xC5, 0x0A]]));
    assert_eq!(io.get_offset(&vec![1]).unwrap(), vec![-709]);
}

#[test]
fn angle_below_minus_pi_is_sign_magnitude_on_the_wire() {
    let mut io = Io::new(TableBus::default());
    // -3.5 rad is tick -234
    io.set_goal_position(&vec![2], &vec![-3_500_000]).unwrap();
    assert_eq!(io.transport().writes[0], (vec![2], addr(GOAL_POSITION), vec![vec![0xEA, 0x80]]));
    let back = io.get_goal_position(&vec![2]).unwrap();
    assert!((back[0] + 3_500_000).abs() <= 767);
}

#[test]
fn value_out_of_register_range_is_refused() {
    let mut io = Io::new(TableBus::default());
    assert!(matches!(io.set_offset(&vec![1], &vec![2048]), Err(BusError::OutOfRange)));
    assert!(matches!(io.set_p_coefficient(&vec![1], &vec![256]), Err(BusError::OutOfRange)));
    assert!(matches!(io.set_goal_position(&vec![1], &vec![-100_000_000]), Err(BusError::OutOfRange)));
    assert!(io.transport().writes.is_empty());
}

#[test]
fn unknown_register_is_refused() {
    let mut io = Io::new(TableBus::default());
    assert!(matches!(io.read("no_such_register", &vec![1]), Err(BusError::UnknownRegister)));
    assert!(matches!(io.write("no_such_register", &vec![1], &vec![0]), Err(BusError::UnknownRegister)));
    assert_eq!(io.transport().reads, 0);
}
