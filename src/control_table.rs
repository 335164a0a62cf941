//! The registers of the STS3215 control table that the library exposes: the name of
//! each, and a get and, where the register is writable, a set operation for it.
//!
//! Position registers are read and written as angles in microradians, speed registers
//! as speeds in microradians per second (see [`crate::units`]); every other register
//! as the integer it holds. Where each register lies and how its value is encoded comes
//! from the servo definition (see [`crate::codec`]).
use crate::registers::{
    angle_ticks, read_angles_done, read_done, read_speeds_done, speed_steps, uniform, write_done,
    BusError, Io, Transport,
};
use vstd::prelude::*;

verus! {

/// Name of the model number register.
pub const MODEL: &'static str = "model";

/// Name of the baud rate code register.
pub const BAUDRATE: &'static str = "baudrate";

/// Name of the return delay time register.
pub const RETURN_DELAY_TIME: &'static str = "return_delay_time";

/// Name of the response status level register.
pub const RESPONSE_STATUS_LEVEL: &'static str = "response_status_level";

/// Name of the minimum angle limit register.
pub const MIN_ANGLE_LIMIT: &'static str = "min_angle_limit";

/// Name of the maximum angle limit register.
pub const MAX_ANGLE_LIMIT: &'static str = "max_angle_limit";

/// Name of the maximum temperature limit register.
pub const MAX_TEMPERATURE_LIMIT: &'static str = "max_temperature_limit";

/// Name of the maximum input voltage limit register.
pub const MAX_VOLTAGE_LIMIT: &'static str = "max_voltage_limit";

/// Name of the minimum input voltage limit register.
pub const MIN_VOLTAGE_LIMIT: &'static str = "min_voltage_limit";

/// Name of the phase setting register.
pub const PHASE: &'static str = "phase";

/// Name of the unloading condition register.
pub const UNLOADING_CONDITION: &'static str = "unloading_condition";

/// Name of the LED alarm condition register.
pub const LED_ALARM_CONDITION: &'static str = "led_alarm_condition";

/// Name of the position loop P coefficient register.
pub const P_COEFFICIENT: &'static str = "p_coefficient";

/// Name of the position loop D coefficient register.
pub const D_COEFFICIENT: &'static str = "d_coefficient";

/// Name of the position loop I coefficient register.
pub const I_COEFFICIENT: &'static str = "i_coefficient";

/// Name of the minimum startup force register.
pub const MINIMUM_STARTUP_FORCE: &'static str = "minimum_startup_force";

/// Name of the clockwise dead zone register.
pub const CW_DEAD_ZONE: &'static str = "cw_dead_zone";

/// Name of the counter-clockwise dead zone register.
pub const CCW_DEAD_ZONE: &'static str = "ccw_dead_zone";

/// Name of the protection current register.
pub const PROTECTION_CURRENT: &'static str = "protection_current";

/// Name of the angular resolution register.
pub const ANGULAR_RESOLUTION: &'static str = "angular_resolution";

/// Name of the position offset register.
pub const OFFSET: &'static str = "offset";

/// Name of the operating mode register.
pub const MODE: &'static str = "mode";

/// Name of the protective torque register.
pub const PROTECTIVE_TORQUE: &'static str = "protective_torque";

/// Name of the protection time register.
pub const PROTECTION_TIME: &'static str = "protection_time";

/// Name of the overload torque register.
pub const OVERLOAD_TORQUE: &'static str = "overload_torque";

/// Name of the speed loop P coefficient register.
pub const SPEED_CLOSED_LOOP_P_COEFFICIENT: &'static str = "speed_closed_loop_p_coefficient";

/// Name of the over-current protection time register.
pub const OVER_CURRENT_PROTECTION_TIME: &'static str = "over_current_protection_time";

/// Name of the speed loop I coefficient register.
pub const VELOCITY_CLOSED_LOOP_I_COEFFICIENT: &'static str = "velocity_closed_loop_i_coefficient";

/// Name of the torque enable flag register.
pub const TORQUE_ENABLE: &'static str = "torque_enable";

/// Name of the acceleration register.
pub const ACCELERATION: &'static str = "acceleration";

/// Name of the goal position register.
pub const GOAL_POSITION: &'static str = "goal_position";

/// Name of the goal time register.
pub const GOAL_TIME: &'static str = "goal_time";

/// Name of the goal speed register.
pub const GOAL_SPEED: &'static str = "goal_speed";

/// Name of the torque limit register.
pub const TORQUE_LIMIT: &'static str = "torque_limit";

/// Name of the EEPROM lock flag register.
pub const LOCK: &'static str = "lock";

/// Name of the present position register.
pub const PRESENT_POSITION: &'static str = "present_position";

/// Name of the present speed register.
pub const PRESENT_SPEED: &'static str = "present_speed";

/// Name of the present load register.
pub const PRESENT_LOAD: &'static str = "present_load";

/// Name of the present input voltage register.
pub const PRESENT_VOLTAGE: &'static str = "present_voltage";

/// Name of the present temperature register.
pub const PRESENT_TEMPERATURE: &'static str = "present_temperature";

/// Name of the status flags register.
pub const STATUS: &'static str = "status";

/// Name of the moving flag register.
pub const MOVING: &'static str = "moving";

/// Name of the present current register.
pub const PRESENT_CURRENT: &'static str = "present_current";

/// Name of the maximum acceleration register.
pub const MAXIMUM_ACCELERATION: &'static str = "maximum_acceleration";

impl<T: Transport> Io<T> {

    /// The model number of each servo, in the order of `ids`.
    pub fn get_model(&mut self, ids: &Vec<u8>) -> (r: Result<Vec<i64>, BusError>)
        ensures
            read_done(old(self).history(), final(self).history(), MODEL@, ids@, r),
    {
        self.read(MODEL, ids)
    }

    /// The baud rate code of each servo, in the order of `ids`.
    pub fn get_baudrate(&mut self, ids: &Vec<u8>) -> (r: Result<Vec<i64>, BusError>)
        ensures
            read_done(old(self).history(), final(self).history(), BAUDRATE@, ids@, r),
    {
        self.read(BAUDRATE, ids)
    }

    /// Sets the baud rate code of `ids[i]` to `values[i]`, for every i.
    pub fn set_baudrate(&mut self, ids: &Vec<u8>, values: &Vec<i64>) -> (r: Result<(), BusError>)
        ensures
            write_done(old(self).history(), final(self).history(), BAUDRATE@, ids@, values@, r),
    {
        self.write(BAUDRATE, ids, values)
    }

    /// The return delay time of each servo, in the order of `ids`.
    pub fn get_return_delay_time(&mut self, ids: &Vec<u8>) -> (r: Result<Vec<i64>, BusError>)
        ensures
            read_done(old(self).history(), final(self).history(), RETURN_DELAY_TIME@, ids@, r),
    {
        self.read(RETURN_DELAY_TIME, ids)
    }

    /// Sets the return delay time of `ids[i]` to `values[i]`, for every i.
    pub fn set_return_delay_time(&mut self, ids: &Vec<u8>, values: &Vec<i64>) -> (r: Result<(), BusError>)
        ensures
            write_done(old(self).history(), final(self).history(), RETURN_DELAY_TIME@, ids@, values@, r),
    {
        self.write(RETURN_DELAY_TIME, ids, values)
    }

    /// The response status level of each servo, in the order of `ids`.
    pub fn get_response_status_level(&mut self, ids: &Vec<u8>) -> (r: Result<Vec<i64>, BusError>)
        ensures
            read_done(old(self).history(), final(self).history(), RESPONSE_STATUS_LEVEL@, ids@, r),
    {
        self.read(RESPONSE_STATUS_LEVEL, ids)
    }

    /// Sets the response status level of `ids[i]` to `values[i]`, for every i.
    pub fn set_response_status_level(&mut self, ids: &Vec<u8>, values: &Vec<i64>) -> (r: Result<(), BusError>)
        ensures
            write_done(old(self).history(), final(self).history(), RESPONSE_STATUS_LEVEL@, ids@, values@, r),
    {
        self.write(RESPONSE_STATUS_LEVEL, ids, values)
    }

    /// The minimum angle limit of each servo in microradians, in the order of `ids`.
    pub fn get_min_angle_limit(&mut self, ids: &Vec<u8>) -> (r: Result<Vec<i64>, BusError>)
        ensures
            read_angles_done(old(self).history(), final(self).history(), MIN_ANGLE_LIMIT@, ids@, r),
    {
        self.read_angles(MIN_ANGLE_LIMIT, ids)
    }

    /// Sets the minimum angle limit of `ids[i]` to `values[i]` in microradians, for every i.
    pub fn set_min_angle_limit(&mut self, ids: &Vec<u8>, values: &Vec<i64>) -> (r: Result<(), BusError>)
        ensures
            write_done(old(self).history(), final(self).history(), MIN_ANGLE_LIMIT@, ids@, angle_ticks(values@), r),
    {
        self.write_angles(MIN_ANGLE_LIMIT, ids, values)
    }

    /// The maximum angle limit of each servo in microradians, in the order of `ids`.
    pub fn get_max_angle_limit(&mut self, ids: &Vec<u8>) -> (r: Result<Vec<i64>, BusError>)
        ensures
            read_angles_done(old(self).history(), final(self).history(), MAX_ANGLE_LIMIT@, ids@, r),
    {
        self.read_angles(MAX_ANGLE_LIMIT, ids)
    }

    /// Sets the maximum angle limit of `ids[i]` to `values[i]` in microradians, for every i.
    pub fn set_max_angle_limit(&mut self, ids: &Vec<u8>, values: &Vec<i64>) -> (r: Result<(), BusError>)
        ensures
            write_done(old(self).history(), final(self).history(), MAX_ANGLE_LIMIT@, ids@, angle_ticks(values@), r),
    {
        self.write_angles(MAX_ANGLE_LIMIT, ids, values)
    }

    /// The maximum temperature limit of each servo, in the order of `ids`.
    pub fn get_max_temperature_limit(&mut self, ids: &Vec<u8>) -> (r: Result<Vec<i64>, BusError>)
        ensures
            read_done(old(self).history(), final(self).history(), MAX_TEMPERATURE_LIMIT@, ids@, r),
    {
        self.read(MAX_TEMPERATURE_LIMIT, ids)
    }

    /// Sets the maximum temperature limit of `ids[i]` to `values[i]`, for every i.
    pub fn set_max_temperature_limit(&mut self, ids: &Vec<u8>, values: &Vec<i64>) -> (r: Result<(), BusError>)
        ensures
            write_done(old(self).history(), final(self).history(), MAX_TEMPERATURE_LIMIT@, ids@, values@, r),
    {
        self.write(MAX_TEMPERATURE_LIMIT, ids, values)
    }

    /// The maximum input voltage limit of each servo, in the order of `ids`.
    pub fn get_max_voltage_limit(&mut self, ids: &Vec<u8>) -> (r: Result<Vec<i64>, BusError>)
        ensures
            read_done(old(self).history(), final(self).history(), MAX_VOLTAGE_LIMIT@, ids@, r),
    {
        self.read(MAX_VOLTAGE_LIMIT, ids)
    }

    /// Sets the maximum input voltage limit of `ids[i]` to `values[i]`, for every i.
    pub fn set_max_voltage_limit(&mut self, ids: &Vec<u8>, values: &Vec<i64>) -> (r: Result<(), BusError>)
        ensures
            write_done(old(self).history(), final(self).history(), MAX_VOLTAGE_LIMIT@, ids@, values@, r),
    {
        self.write(MAX_VOLTAGE_LIMIT, ids, values)
    }

    /// The minimum input voltage limit of each servo, in the order of `ids`.
    pub fn get_min_voltage_limit(&mut self, ids: &Vec<u8>) -> (r: Result<Vec<i64>, BusError>)
        ensures
            read_done(old(self).history(), final(self).history(), MIN_VOLTAGE_LIMIT@, ids@, r),
    {
        self.read(MIN_VOLTAGE_LIMIT, ids)
    }

    /// Sets the minimum input voltage limit of `ids[i]` to `values[i]`, for every i.
    pub fn set_min_voltage_limit(&mut self, ids: &Vec<u8>, values: &Vec<i64>) -> (r: Result<(), BusError>)
        ensures
            write_done(old(self).history(), final(self).history(), MIN_VOLTAGE_LIMIT@, ids@, values@, r),
    {
        self.write(MIN_VOLTAGE_LIMIT, ids, values)
    }

    /// The phase setting of each servo, in the order of `ids`.
    pub fn get_phase(&mut self, ids: &Vec<u8>) -> (r: Result<Vec<i64>, BusError>)
        ensures
            read_done(old(self).history(), final(self).history(), PHASE@, ids@, r),
    {
        self.read(PHASE, ids)
    }

    /// Sets the phase setting of `ids[i]` to `values[i]`, for every i.
    pub fn set_phase(&mut self, ids: &Vec<u8>, values: &Vec<i64>) -> (r: Result<(), BusError>)
        ensures
            write_done(old(self).history(), final(self).history(), PHASE@, ids@, values@, r),
    {
        self.write(PHASE, ids, values)
    }

    /// The unloading condition of each servo, in the order of `ids`.
    pub fn get_unloading_condition(&mut self, ids: &Vec<u8>) -> (r: Result<Vec<i64>, BusError>)
        ensures
            read_done(old(self).history(), final(self).history(), UNLOADING_CONDITION@, ids@, r),
    {
        self.read(UNLOADING_CONDITION, ids)
    }

    /// Sets the unloading condition of `ids[i]` to `values[i]`, for every i.
    pub fn set_unloading_condition(&mut self, ids: &Vec<u8>, values: &Vec<i64>) -> (r: Result<(), BusError>)
        ensures
            write_done(old(self).history(), final(self).history(), UNLOADING_CONDITION@, ids@, values@, r),
    {
        self.write(UNLOADING_CONDITION, ids, values)
    }

    /// The LED alarm condition of each servo, in the order of `ids`.
    pub fn get_led_alarm_condition(&mut self, ids: &Vec<u8>) -> (r: Result<Vec<i64>, BusError>)
        ensures
            read_done(old(self).history(), final(self).history(), LED_ALARM_CONDITION@, ids@, r),
    {
        self.read(LED_ALARM_CONDITION, ids)
    }

    /// Sets the LED alarm condition of `ids[i]` to `values[i]`, for every i.
    pub fn set_led_alarm_condition(&mut self, ids: &Vec<u8>, values: &Vec<i64>) -> (r: Result<(), BusError>)
        ensures
            write_done(old(self).history(), final(self).history(), LED_ALARM_CONDITION@, ids@, values@, r),
    {
        self.write(LED_ALARM_CONDITION, ids, values)
    }

    /// The position loop P coefficient of each servo, in the order of `ids`.
    pub fn get_p_coefficient(&mut self, ids: &Vec<u8>) -> (r: Result<Vec<i64>, BusError>)
        ensures
            read_done(old(self).history(), final(self).history(), P_COEFFICIENT@, ids@, r),
    {
        self.read(P_COEFFICIENT, ids)
    }

    /// Sets the position loop P coefficient of `ids[i]` to `values[i]`, for every i.
    pub fn set_p_coefficient(&mut self, ids: &Vec<u8>, values: &Vec<i64>) -> (r: Result<(), BusError>)
        ensures
            write_done(old(self).history(), final(self).history(), P_COEFFICIENT@, ids@, values@, r),
    {
        self.write(P_COEFFICIENT, ids, values)
    }

    /// The position loop D coefficient of each servo, in the order of `ids`.
    pub fn get_d_coefficient(&mut self, ids: &Vec<u8>) -> (r: Result<Vec<i64>, BusError>)
        ensures
            read_done(old(self).history(), final(self).history(), D_COEFFICIENT@, ids@, r),
    {
        self.read(D_COEFFICIENT, ids)
    }

    /// Sets the position loop D coefficient of `ids[i]` to `values[i]`, for every i.
    pub fn set_d_coefficient(&mut self, ids: &Vec<u8>, values: &Vec<i64>) -> (r: Result<(), BusError>)
        ensures
            write_done(old(self).history(), final(self).history(), D_COEFFICIENT@, ids@, values@, r),
    {
        self.write(D_COEFFICIENT, ids, values)
    }

    /// The position loop I coefficient of each servo, in the order of `ids`.
    pub fn get_i_coefficient(&mut self, ids: &Vec<u8>) -> (r: Result<Vec<i64>, BusError>)
        ensures
            read_done(old(self).history(), final(self).history(), I_COEFFICIENT@, ids@, r),
    {
        self.read(I_COEFFICIENT, ids)
    }

    /// Sets the position loop I coefficient of `ids[i]` to `values[i]`, for every i.
    pub fn set_i_coefficient(&mut self, ids: &Vec<u8>, values: &Vec<i64>) -> (r: Result<(), BusError>)
        ensures
            write_done(old(self).history(), final(self).history(), I_COEFFICIENT@, ids@, values@, r),
    {
        self.write(I_COEFFICIENT, ids, values)
    }

    /// The minimum startup force of each servo, in the order of `ids`.
    pub fn get_minimum_startup_force(&mut self, ids: &Vec<u8>) -> (r: Result<Vec<i64>, BusError>)
        ensures
            read_done(old(self).history(), final(self).history(), MINIMUM_STARTUP_FORCE@, ids@, r),
    {
        self.read(MINIMUM_STARTUP_FORCE, ids)
    }

    /// Sets the minimum startup force of `ids[i]` to `values[i]`, for every i.
    pub fn set_minimum_startup_force(&mut self, ids: &Vec<u8>, values: &Vec<i64>) -> (r: Result<(), BusError>)
        ensures
            write_done(old(self).history(), final(self).history(), MINIMUM_STARTUP_FORCE@, ids@, values@, r),
    {
        self.write(MINIMUM_STARTUP_FORCE, ids, values)
    }

    /// The clockwise dead zone of each servo, in the order of `ids`.
    pub fn get_cw_dead_zone(&mut self, ids: &Vec<u8>) -> (r: Result<Vec<i64>, BusError>)
        ensures
            read_done(old(self).history(), final(self).history(), CW_DEAD_ZONE@, ids@, r),
    {
        self.read(CW_DEAD_ZONE, ids)
    }

    /// Sets the clockwise dead zone of `ids[i]` to `values[i]`, for every i.
    pub fn set_cw_dead_zone(&mut self, ids: &Vec<u8>, values: &Vec<i64>) -> (r: Result<(), BusError>)
        ensures
            write_done(old(self).history(), final(self).history(), CW_DEAD_ZONE@, ids@, values@, r),
    {
        self.write(CW_DEAD_ZONE, ids, values)
    }

    /// The counter-clockwise dead zone of each servo, in the order of `ids`.
    pub fn get_ccw_dead_zone(&mut self, ids: &Vec<u8>) -> (r: Result<Vec<i64>, BusError>)
        ensures
            read_done(old(self).history(), final(self).history(), CCW_DEAD_ZONE@, ids@, r),
    {
        self.read(CCW_DEAD_ZONE, ids)
    }

    /// Sets the counter-clockwise dead zone of `ids[i]` to `values[i]`, for every i.
    pub fn set_ccw_dead_zone(&mut self, ids: &Vec<u8>, values: &Vec<i64>) -> (r: Result<(), BusError>)
        ensures
            write_done(old(self).history(), final(self).history(), CCW_DEAD_ZONE@, ids@, values@, r),
    {
        self.write(CCW_DEAD_ZONE, ids, values)
    }

    /// The protection current of each servo, in the order of `ids`.
    pub fn get_protection_current(&mut self, ids: &Vec<u8>) -> (r: Result<Vec<i64>, BusError>)
        ensures
            read_done(old(self).history(), final(self).history(), PROTECTION_CURRENT@, ids@, r),
    {
        self.read(PROTECTION_CURRENT, ids)
    }

    /// Sets the protection current of `ids[i]` to `values[i]`, for every i.
    pub fn set_protection_current(&mut self, ids: &Vec<u8>, values: &Vec<i64>) -> (r: Result<(), BusError>)
        ensures
            write_done(old(self).history(), final(self).history(), PROTECTION_CURRENT@, ids@, values@, r),
    {
        self.write(PROTECTION_CURRENT, ids, values)
    }

    /// The angular resolution of each servo, in the order of `ids`.
    pub fn get_angular_resolution(&mut self, ids: &Vec<u8>) -> (r: Result<Vec<i64>, BusError>)
        ensures
            read_done(old(self).history(), final(self).history(), ANGULAR_RESOLUTION@, ids@, r),
    {
        self.read(ANGULAR_RESOLUTION, ids)
    }

    /// Sets the angular resolution of `ids[i]` to `values[i]`, for every i.
    pub fn set_angular_resolution(&mut self, ids: &Vec<u8>, values: &Vec<i64>) -> (r: Result<(), BusError>)
        ensures
            write_done(old(self).history(), final(self).history(), ANGULAR_RESOLUTION@, ids@, values@, r),
    {
        self.write(ANGULAR_RESOLUTION, ids, values)
    }

    /// The position offset of each servo, in the order of `ids`.
    pub fn get_offset(&mut self, ids: &Vec<u8>) -> (r: Result<Vec<i64>, BusError>)
        ensures
            read_done(old(self).history(), final(self).history(), OFFSET@, ids@, r),
    {
        self.read(OFFSET, ids)
    }

    /// Sets the position offset of `ids[i]` to `values[i]`, for every i.
    pub fn set_offset(&mut self, ids: &Vec<u8>, values: &Vec<i64>) -> (r: Result<(), BusError>)
        ensures
            write_done(old(self).history(), final(self).history(), OFFSET@, ids@, values@, r),
    {
        self.write(OFFSET, ids, values)
    }

    /// The operating mode of each servo, in the order of `ids`.
    pub fn get_mode(&mut self, ids: &Vec<u8>) -> (r: Result<Vec<i64>, BusError>)
        ensures
            read_done(old(self).history(), final(self).history(), MODE@, ids@, r),
    {
        self.read(MODE, ids)
    }

    /// The protective torque of each servo, in the order of `ids`.
    pub fn get_protective_torque(&mut self, ids: &Vec<u8>) -> (r: Result<Vec<i64>, BusError>)
        ensures
            read_done(old(self).history(), final(self).history(), PROTECTIVE_TORQUE@, ids@, r),
    {
        self.read(PROTECTIVE_TORQUE, ids)
    }

    /// Sets the protective torque of `ids[i]` to `values[i]`, for every i.
    pub fn set_protective_torque(&mut self, ids: &Vec<u8>, values: &Vec<i64>) -> (r: Result<(), BusError>)
        ensures
            write_done(old(self).history(), final(self).history(), PROTECTIVE_TORQUE@, ids@, values@, r),
    {
        self.write(PROTECTIVE_TORQUE, ids, values)
    }

    /// The protection time of each servo, in the order of `ids`.
    pub fn get_protection_time(&mut self, ids: &Vec<u8>) -> (r: Result<Vec<i64>, BusError>)
        ensures
            read_done(old(self).history(), final(self).history(), PROTECTION_TIME@, ids@, r),
    {
        self.read(PROTECTION_TIME, ids)
    }

    /// Sets the protection time of `ids[i]` to `values[i]`, for every i.
    pub fn set_protection_time(&mut self, ids: &Vec<u8>, values: &Vec<i64>) -> (r: Result<(), BusError>)
        ensures
            write_done(old(self).history(), final(self).history(), PROTECTION_TIME@, ids@, values@, r),
    {
        self.write(PROTECTION_TIME, ids, values)
    }

    /// The overload torque of each servo, in the order of `ids`.
    pub fn get_overload_torque(&mut self, ids: &Vec<u8>) -> (r: Result<Vec<i64>, BusError>)
        ensures
            read_done(old(self).history(), final(self).history(), OVERLOAD_TORQUE@, ids@, r),
    {
        self.read(OVERLOAD_TORQUE, ids)
    }

    /// Sets the overload torque of `ids[i]` to `values[i]`, for every i.
    pub fn set_overload_torque(&mut self, ids: &Vec<u8>, values: &Vec<i64>) -> (r: Result<(), BusError>)
        ensures
            write_done(old(self).history(), final(self).history(), OVERLOAD_TORQUE@, ids@, values@, r),
    {
        self.write(OVERLOAD_TORQUE, ids, values)
    }

    /// The speed loop P coefficient of each servo, in the order of `ids`.
    pub fn get_speed_closed_loop_p_coefficient(&mut self, ids: &Vec<u8>) -> (r: Result<Vec<i64>, BusError>)
        ensures
            read_done(old(self).history(), final(self).history(), SPEED_CLOSED_LOOP_P_COEFFICIENT@, ids@, r),
    {
        self.read(SPEED_CLOSED_LOOP_P_COEFFICIENT, ids)
    }

    /// Sets the speed loop P coefficient of `ids[i]` to `values[i]`, for every i.
    pub fn set_speed_closed_loop_p_coefficient(&mut self, ids: &Vec<u8>, values: &Vec<i64>) -> (r: Result<(), BusError>)
        ensures
            write_done(old(self).history(), final(self).history(), SPEED_CLOSED_LOOP_P_COEFFICIENT@, ids@, values@, r),
    {
        self.write(SPEED_CLOSED_LOOP_P_COEFFICIENT, ids, values)
    }

    /// The over-current protection time of each servo, in the order of `ids`.
    pub fn get_over_current_protection_time(&mut self, ids: &Vec<u8>) -> (r: Result<Vec<i64>, BusError>)
        ensures
            read_done(old(self).history(), final(self).history(), OVER_CURRENT_PROTECTION_TIME@, ids@, r),
    {
        self.read(OVER_CURRENT_PROTECTION_TIME, ids)
    }

    /// Sets the over-current protection time of `ids[i]` to `values[i]`, for every i.
    pub fn set_over_current_protection_time(&mut self, ids: &Vec<u8>, values: &Vec<i64>) -> (r: Result<(), BusError>)
        ensures
            write_done(old(self).history(), final(self).history(), OVER_CURRENT_PROTECTION_TIME@, ids@, values@, r),
    {
        self.write(OVER_CURRENT_PROTECTION_TIME, ids, values)
    }

    /// The speed loop I coefficient of each servo, in the order of `ids`.
    pub fn get_velocity_closed_loop_i_coefficient(&mut self, ids: &Vec<u8>) -> (r: Result<Vec<i64>, BusError>)
        ensures
            read_done(old(self).history(), final(self).history(), VELOCITY_CLOSED_LOOP_I_COEFFICIENT@, ids@, r),
    {
        self.read(VELOCITY_CLOSED_LOOP_I_COEFFICIENT, ids)
    }

    /// Sets the speed loop I coefficient of `ids[i]` to `values[i]`, for every i.
    pub fn set_velocity_closed_loop_i_coefficient(&mut self, ids: &Vec<u8>, values: &Vec<i64>) -> (r: Result<(), BusError>)
        ensures
            write_done(old(self).history(), final(self).history(), VELOCITY_CLOSED_LOOP_I_COEFFICIENT@, ids@, values@, r),
    {
        self.write(VELOCITY_CLOSED_LOOP_I_COEFFICIENT, ids, values)
    }

    /// The torque enable flag of each servo, in the order of `ids`.
    pub fn get_torque_enable(&mut self, ids: &Vec<u8>) -> (r: Result<Vec<i64>, BusError>)
        ensures
            read_done(old(self).history(), final(self).history(), TORQUE_ENABLE@, ids@, r),
    {
        self.read(TORQUE_ENABLE, ids)
    }

    /// Sets the torque enable flag of `ids[i]` to `values[i]`, for every i.
    pub fn set_torque_enable(&mut self, ids: &Vec<u8>, values: &Vec<i64>) -> (r: Result<(), BusError>)
        ensures
            write_done(old(self).history(), final(self).history(), TORQUE_ENABLE@, ids@, values@, r),
    {
        self.write(TORQUE_ENABLE, ids, values)
    }

    /// The acceleration of each servo, in the order of `ids`.
    pub fn get_acceleration(&mut self, ids: &Vec<u8>) -> (r: Result<Vec<i64>, BusError>)
        ensures
            read_done(old(self).history(), final(self).history(), ACCELERATION@, ids@, r),
    {
        self.read(ACCELERATION, ids)
    }

    /// Sets the acceleration of `ids[i]` to `values[i]`, for every i.
    pub fn set_acceleration(&mut self, ids: &Vec<u8>, values: &Vec<i64>) -> (r: Result<(), BusError>)
        ensures
            write_done(old(self).history(), final(self).history(), ACCELERATION@, ids@, values@, r),
    {
        self.write(ACCELERATION, ids, values)
    }

    /// The goal position of each servo in microradians, in the order of `ids`.
    pub fn get_goal_position(&mut self, ids: &Vec<u8>) -> (r: Result<Vec<i64>, BusError>)
        ensures
            read_angles_done(old(self).history(), final(self).history(), GOAL_POSITION@, ids@, r),
    {
        self.read_angles(GOAL_POSITION, ids)
    }

    /// Sets the goal position of `ids[i]` to `values[i]` in microradians, for every i.
    pub fn set_goal_position(&mut self, ids: &Vec<u8>, values: &Vec<i64>) -> (r: Result<(), BusError>)
        ensures
            write_done(old(self).history(), final(self).history(), GOAL_POSITION@, ids@, angle_ticks(values@), r),
    {
        self.write_angles(GOAL_POSITION, ids, values)
    }

    /// The goal time of each servo, in the order of `ids`.
    pub fn get_goal_time(&mut self, ids: &Vec<u8>) -> (r: Result<Vec<i64>, BusError>)
        ensures
            read_done(old(self).history(), final(self).history(), GOAL_TIME@, ids@, r),
    {
        self.read(GOAL_TIME, ids)
    }

    /// Sets the goal time of `ids[i]` to `values[i]`, for every i.
    pub fn set_goal_time(&mut self, ids: &Vec<u8>, values: &Vec<i64>) -> (r: Result<(), BusError>)
        ensures
            write_done(old(self).history(), final(self).history(), GOAL_TIME@, ids@, values@, r),
    {
        self.write(GOAL_TIME, ids, values)
    }

    /// The goal speed of each servo in microradians per second, in the order of `ids`.
    pub fn get_goal_speed(&mut self, ids: &Vec<u8>) -> (r: Result<Vec<i64>, BusError>)
        ensures
            read_speeds_done(old(self).history(), final(self).history(), GOAL_SPEED@, ids@, r),
    {
        self.read_speeds(GOAL_SPEED, ids)
    }

    /// Sets the goal speed of `ids[i]` to `values[i]` in microradians per second, for every i.
    pub fn set_goal_speed(&mut self, ids: &Vec<u8>, values: &Vec<i64>) -> (r: Result<(), BusError>)
        ensures
            write_done(old(self).history(), final(self).history(), GOAL_SPEED@, ids@, speed_steps(values@), r),
    {
        self.write_speeds(GOAL_SPEED, ids, values)
    }

    /// The torque limit of each servo, in the order of `ids`.
    pub fn get_torque_limit(&mut self, ids: &Vec<u8>) -> (r: Result<Vec<i64>, BusError>)
        ensures
            read_done(old(self).history(), final(self).history(), TORQUE_LIMIT@, ids@, r),
    {
        self.read(TORQUE_LIMIT, ids)
    }

    /// Sets the torque limit of `ids[i]` to `values[i]`, for every i.
    pub fn set_torque_limit(&mut self, ids: &Vec<u8>, values: &Vec<i64>) -> (r: Result<(), BusError>)
        ensures
            write_done(old(self).history(), final(self).history(), TORQUE_LIMIT@, ids@, values@, r),
    {
        self.write(TORQUE_LIMIT, ids, values)
    }

    /// The EEPROM lock flag of each servo, in the order of `ids`.
    pub fn get_lock(&mut self, ids: &Vec<u8>) -> (r: Result<Vec<i64>, BusError>)
        ensures
            read_done(old(self).history(), final(self).history(), LOCK@, ids@, r),
    {
        self.read(LOCK, ids)
    }

    /// Sets the EEPROM lock flag of `ids[i]` to `values[i]`, for every i.
    pub fn set_lock(&mut self, ids: &Vec<u8>, values: &Vec<i64>) -> (r: Result<(), BusError>)
        ensures
            write_done(old(self).history(), final(self).history(), LOCK@, ids@, values@, r),
    {
        self.write(LOCK, ids, values)
    }

    /// The present position of each servo in microradians, in the order of `ids`.
    pub fn get_present_position(&mut self, ids: &Vec<u8>) -> (r: Result<Vec<i64>, BusError>)
        ensures
            read_angles_done(old(self).history(), final(self).history(), PRESENT_POSITION@, ids@, r),
    {
        self.read_angles(PRESENT_POSITION, ids)
    }

    /// The present speed of each servo in microradians per second, in the order of `ids`.
    pub fn get_present_speed(&mut self, ids: &Vec<u8>) -> (r: Result<Vec<i64>, BusError>)
        ensures
            read_speeds_done(old(self).history(), final(self).history(), PRESENT_SPEED@, ids@, r),
    {
        self.read_speeds(PRESENT_SPEED, ids)
    }

    /// The present load of each servo, in the order of `ids`.
    pub fn get_present_load(&mut self, ids: &Vec<u8>) -> (r: Result<Vec<i64>, BusError>)
        ensures
            read_done(old(self).history(), final(self).history(), PRESENT_LOAD@, ids@, r),
    {
        self.read(PRESENT_LOAD, ids)
    }

    /// The present input voltage of each servo, in the order of `ids`.
    pub fn get_present_voltage(&mut self, ids: &Vec<u8>) -> (r: Result<Vec<i64>, BusError>)
        ensures
            read_done(old(self).history(), final(self).history(), PRESENT_VOLTAGE@, ids@, r),
    {
        self.read(PRESENT_VOLTAGE, ids)
    }

    /// The present temperature of each servo, in the order of `ids`.
    pub fn get_present_temperature(&mut self, ids: &Vec<u8>) -> (r: Result<Vec<i64>, BusError>)
        ensures
            read_done(old(self).history(), final(self).history(), PRESENT_TEMPERATURE@, ids@, r),
    {
        self.read(PRESENT_TEMPERATURE, ids)
    }

    /// The status flags of each servo, in the order of `ids`.
    pub fn get_status(&mut self, ids: &Vec<u8>) -> (r: Result<Vec<i64>, BusError>)
        ensures
            read_done(old(self).history(), final(self).history(), STATUS@, ids@, r),
    {
        self.read(STATUS, ids)
    }

    /// The moving flag of each servo, in the order of `ids`.
    pub fn get_moving(&mut self, ids: &Vec<u8>) -> (r: Result<Vec<i64>, BusError>)
        ensures
            read_done(old(self).history(), final(self).history(), MOVING@, ids@, r),
    {
        self.read(MOVING, ids)
    }

    /// The present current of each servo, in the order of `ids`.
    pub fn get_present_current(&mut self, ids: &Vec<u8>) -> (r: Result<Vec<i64>, BusError>)
        ensures
            read_done(old(self).history(), final(self).history(), PRESENT_CURRENT@, ids@, r),
    {
        self.read(PRESENT_CURRENT, ids)
    }

    /// The maximum acceleration of each servo, in the order of `ids`.
    pub fn get_maximum_acceleration(&mut self, ids: &Vec<u8>) -> (r: Result<Vec<i64>, BusError>)
        ensures
            read_done(old(self).history(), final(self).history(), MAXIMUM_ACCELERATION@, ids@, r),
    {
        self.read(MAXIMUM_ACCELERATION, ids)
    }

    /// Sets the maximum acceleration of `ids[i]` to `values[i]`, for every i.
    pub fn set_maximum_acceleration(&mut self, ids: &Vec<u8>, values: &Vec<i64>) -> (r: Result<(), BusError>)
        ensures
            write_done(old(self).history(), final(self).history(), MAXIMUM_ACCELERATION@, ids@, values@, r),
    {
        self.write(MAXIMUM_ACCELERATION, ids, values)
    }

    /// Sets the operating mode of every servo of `ids` to `mode`.
    pub fn set_mode(&mut self, ids: &Vec<u8>, mode: u8) -> (r: Result<(), BusError>)
        ensures
            write_done(old(self).history(), final(self).history(), MODE@, ids@, uniform(ids@.len(), mode as i64), r),
    {
        let values: Vec<i64> = vec![mode as i64; ids.len()];
        proof {
            assert(values@ =~= uniform(ids@.len(), mode as i64));
        }
        self.write(MODE, ids, &values)
    }

    /// Turns the torque of every servo of `ids` on.
    pub fn enable_torque(&mut self, ids: &Vec<u8>) -> (r: Result<(), BusError>)
        ensures
            write_done(old(self).history(), final(self).history(), TORQUE_ENABLE@, ids@, uniform(ids@.len(), 1i64), r),
    {
        let values: Vec<i64> = vec![1i64; ids.len()];
        proof {
            assert(values@ =~= uniform(ids@.len(), 1i64));
        }
        self.write(TORQUE_ENABLE, ids, &values)
    }

    /// Turns the torque of every servo of `ids` off.
    pub fn disable_torque(&mut self, ids: &Vec<u8>) -> (r: Result<(), BusError>)
        ensures
            write_done(old(self).history(), final(self).history(), TORQUE_ENABLE@, ids@, uniform(ids@.len(), 0i64), r),
    {
        let values: Vec<i64> = vec![0i64; ids.len()];
        proof {
            assert(values@ =~= uniform(ids@.len(), 0i64));
        }
        self.write(TORQUE_ENABLE, ids, &values)
    }
}

} // verus!
