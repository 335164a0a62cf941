//! Typed, bulk access to the control table of every servo on one bus.
//!
//! Registers are named as in the STS3215 definition of `rustypot`, which gives each its
//! address, width and encoding (see [`crate::codec`]). Each operation is one
//! synchronous transaction that addresses all the given ids at once. [`Io`] keeps, as
//! ghost state, the history of the transactions it issued and what came back; the
//! contracts of its operations are stated over that history.
use crate::codec::{
    decode_value, encode_value, lemma_wire_round_trip, register_layout, sts3215_register, supported,
    value_of, wire_of, Layout, WireEncoding,
};
use crate::units::{
    angle_tick, lemma_angle_round_trip, lemma_speed_accuracy, microradians_to_ticks, speed_step, speed_to_steps, step_speed,
    steps_to_speed, tick_angle, ticks_to_microradians, MAX_TICK_RANGE_ANGLE, MIN_TICK_RANGE_ANGLE,
};
use vstd::prelude::*;

verus! {

/// Why a register operation failed.
#[derive(Debug)]
pub enum BusError {
    /// The serial device could not be opened.
    TransportOpenFailure(String),
    /// The transaction failed: a timeout, a missing or malformed reply, a bad checksum.
    IoFailure(String),
    /// The request itself is wrong: vectors of different lengths, or more ids than one
    /// transaction can address.
    PreconditionViolation,
    /// A value does not fit the width and encoding of its register.
    OutOfRange,
    /// The servo definition has no register of that name that is one or two bytes wide.
    UnknownRegister,
}

/// Most bytes of ids and payload that one sync instruction packet can carry.
pub const MAX_SYNC_BYTES: usize = 251;

/// A synchronous bulk link to the servos of one bus.
pub trait Transport {
    /// One sync read of `width` bytes at `address` from every id; on success, one reply
    /// per id, in the order of `ids`.
    fn sync_read(&mut self, ids: &Vec<u8>, address: u8, width: u8) -> Result<Vec<Vec<u8>>, String>
        requires
            1 <= ids@.len() <= MAX_SYNC_BYTES,
            1 <= width <= 2,
    ;

    /// One sync write of `data[i]` at `address` of `ids[i]`, for every i.
    fn sync_write(&mut self, ids: &Vec<u8>, address: u8, data: &Vec<Vec<u8>>) -> Result<(), String>
        requires
            1 <= ids@.len(),
            data@.len() == ids@.len(),
            1 <= data@[0].len() <= 2,
            forall|i: int| 0 <= i < data@.len() ==> #[trigger] data@[i].len() == data@[0].len(),
            ids@.len() * (data@[0].len() + 1) <= MAX_SYNC_BYTES,
    ;
}

/// One transaction on the bus, as the history of an [`Io`] records it.
pub enum BusOp {
    /// A sync read, with the replies, or `None` where the transport reported a failure.
    Read { ids: Seq<u8>, address: u8, width: nat, replies: Option<Seq<Seq<u8>>> },
    /// A sync write, and whether the transport reported success.
    Write { ids: Seq<u8>, address: u8, data: Seq<Seq<u8>>, ok: bool },
}

/// The layout of the register called `name`, where the library can read and write it.
pub open spec fn layout_of(name: Seq<char>) -> Option<Layout> {
    match sts3215_register(name) {
        Some(l) => if supported(l) {
            Some(l)
        } else {
            None
        },
        None => None,
    }
}

/// Whether one sync read instruction can address `n` ids.
pub open spec fn read_fits(n: nat) -> bool {
    n <= MAX_SYNC_BYTES
}

/// Whether one sync write instruction can carry `width` bytes for each of `n` ids.
pub open spec fn write_fits(n: nat, width: nat) -> bool {
    n * (width + 1) <= MAX_SYNC_BYTES
}

/// The values that well-formed replies carry: one reply per id, each of the register's
/// width.
pub open spec fn decoded(l: Layout, replies: Seq<Seq<u8>>, n: nat) -> Option<Seq<i64>> {
    if replies.len() == n && forall|i: int| 0 <= i < n ==> #[trigger] replies[i].len() == l.size {
        Some(replies.map_values(|b: Seq<u8>| value_of(l, b) as i64))
    } else {
        None
    }
}

/// The bytes that a write of `values` sends, one entry per device, or `None` where a
/// value does not fit the register.
pub open spec fn encoded(l: Layout, values: Seq<i64>) -> Option<Seq<Seq<u8>>> {
    if forall|i: int| 0 <= i < values.len() ==> #[trigger] wire_of(l, values[i] as int) is Some {
        Some(values.map_values(|v: i64| wire_of(l, v as int)->Some_0))
    } else {
        None
    }
}

/// `after` is `before` with one more transaction: a read of `width` bytes at `address`
/// from `ids`.
pub open spec fn read_issued(before: Seq<BusOp>, after: Seq<BusOp>, ids: Seq<u8>, address: u8, width: nat) -> bool {
    &&& after.len() == before.len() + 1
    &&& after.drop_last() == before
    &&& after.last() matches BusOp::Read { ids: i, address: a, width: w, replies: _ }
    &&& i == ids && a == address && w == width
}

/// The history after a read of `name` from `ids`: one more read, or the same history
/// where the register is unknown, there are no ids, or too many for one packet.
pub open spec fn read_history(before: Seq<BusOp>, after: Seq<BusOp>, name: Seq<char>, ids: Seq<u8>) -> bool {
    match layout_of(name) {
        Some(l) => if ids.len() == 0 || !read_fits(ids.len()) {
            after == before
        } else {
            read_issued(before, after, ids, l.address, l.size as nat)
        },
        None => after == before,
    }
}

/// The values that a read of `name` from `ids`, ending the history `after`, gave: none
/// for no ids, and `None` where the read failed or could not be made.
pub open spec fn read_values(after: Seq<BusOp>, name: Seq<char>, ids: Seq<u8>) -> Option<Seq<i64>> {
    match layout_of(name) {
        Some(l) => if ids.len() == 0 {
            Some(Seq::empty())
        } else if !read_fits(ids.len()) {
            None
        } else {
            match after.last() {
                BusOp::Read { replies: Some(rs), .. } => decoded(l, rs, ids.len()),
                _ => None,
            }
        },
        None => None,
    }
}

/// The error of a failed read of `name` from `ids`.
pub open spec fn read_error(name: Seq<char>, ids: Seq<u8>, e: BusError) -> bool {
    if layout_of(name) is None {
        e is UnknownRegister
    } else if !read_fits(ids.len()) {
        e is PreconditionViolation
    } else {
        e is IoFailure
    }
}

/// A read of the register `name` from `ids` took place as [`read_history`] says, and `r`
/// holds the values it gave.
pub open spec fn read_done(
    before: Seq<BusOp>,
    after: Seq<BusOp>,
    name: Seq<char>,
    ids: Seq<u8>,
    r: Result<Vec<i64>, BusError>,
) -> bool {
    &&& read_history(before, after, name, ids)
    &&& match read_values(after, name, ids) {
        Some(vs) => (r matches Ok(v) && v@ == vs),
        None => (r matches Err(e) && read_error(name, ids, e)),
    }
}

/// As [`read_done`] for a position register, with the ticks as `i32`.
pub open spec fn read_ticks_done(
    before: Seq<BusOp>,
    after: Seq<BusOp>,
    name: Seq<char>,
    ids: Seq<u8>,
    r: Result<Vec<i32>, BusError>,
) -> bool {
    &&& read_history(before, after, name, ids)
    &&& match read_values(after, name, ids) {
        Some(vs) => (r matches Ok(v) && v@ == vs.map_values(|t: i64| t as i32)),
        None => (r matches Err(e) && read_error(name, ids, e)),
    }
}

/// As [`read_done`] for a position register, with each tick given as its angle in
/// microradians.
pub open spec fn read_angles_done(
    before: Seq<BusOp>,
    after: Seq<BusOp>,
    name: Seq<char>,
    ids: Seq<u8>,
    r: Result<Vec<i64>, BusError>,
) -> bool {
    &&& read_history(before, after, name, ids)
    &&& match read_values(after, name, ids) {
        Some(vs) => (r matches Ok(v) && v@ == vs.map_values(|t: i64| tick_angle(t as int) as i64)),
        None => (r matches Err(e) && read_error(name, ids, e)),
    }
}

/// As [`read_done`] for a speed register, with each tick rate given as its speed in
/// microradians per second.
pub open spec fn read_speeds_done(
    before: Seq<BusOp>,
    after: Seq<BusOp>,
    name: Seq<char>,
    ids: Seq<u8>,
    r: Result<Vec<i64>, BusError>,
) -> bool {
    &&& read_history(before, after, name, ids)
    &&& match read_values(after, name, ids) {
        Some(vs) => (r matches Ok(v) && v@ == vs.map_values(|s: i64| step_speed(s as int) as i64)),
        None => (r matches Err(e) && read_error(name, ids, e)),
    }
}

/// A write of `values` to the register `name` of `ids` took place as one transaction,
/// or none where the register is unknown, the lengths differ, the request does not fit
/// one packet, a value does not fit the register, or there was nothing to write.
pub open spec fn write_done(
    before: Seq<BusOp>,
    after: Seq<BusOp>,
    name: Seq<char>,
    ids: Seq<u8>,
    values: Seq<i64>,
    r: Result<(), BusError>,
) -> bool {
    match layout_of(name) {
        None => after == before && (r matches Err(BusError::UnknownRegister)),
        Some(l) => if values.len() != ids.len() || !write_fits(ids.len(), l.size as nat) {
            after == before && (r matches Err(BusError::PreconditionViolation))
        } else if encoded(l, values) is None {
            after == before && (r matches Err(BusError::OutOfRange))
        } else if ids.len() == 0 {
            after == before && (r matches Ok(_))
        } else {
            &&& after.len() == before.len() + 1
            &&& after.drop_last() == before
            &&& after.last() matches BusOp::Write { ids: i, address: a, data, ok }
            &&& i == ids && a == l.address && Some(data) == encoded(l, values)
            &&& (ok ==> r matches Ok(_))
            &&& (!ok ==> r matches Err(BusError::IoFailure(_)))
        },
    }
}

/// A simulated bus after a write: each servo of `ids` holds `data[i]` from `address` on,
/// every other byte is as `table` had it.
pub open spec fn table_written(
    table: spec_fn(u8, int) -> u8,
    ids: Seq<u8>,
    address: int,
    data: Seq<Seq<u8>>,
) -> spec_fn(u8, int) -> u8 {
    |id: u8, a: int|
        if exists|j: int| 0 <= j < ids.len() && ids[j] == id && address <= a < address + data[j].len() {
            let j = choose|j: int| 0 <= j < ids.len() && ids[j] == id && address <= a < address + data[j].len();
            data[j][a - address]
        } else {
            table(id, a)
        }
}

/// What a simulated bus answers to a read of `width` bytes at `address` from `ids`.
pub open spec fn table_replies(table: spec_fn(u8, int) -> u8, ids: Seq<u8>, address: int, width: nat) -> Seq<Seq<u8>> {
    Seq::new(ids.len(), |j: int| Seq::new(width, |k: int| table(ids[j], address + k)))
}

/// The bus behind `h1` and `h2` keeps simulated control tables: it applied the write
/// that ends `h1` to `table`, and answered the read that ends `h2` from the result.
pub open spec fn simulated_bus(table: spec_fn(u8, int) -> u8, h1: Seq<BusOp>, h2: Seq<BusOp>) -> bool {
    &&& h1.len() > 0
    &&& h2.len() > 0
    &&& h1.last() matches BusOp::Write { ids: wi, address: wa, data, .. }
    &&& h2.last() matches BusOp::Read { ids: ri, address: ra, width, replies: Some(rs) }
    &&& rs == table_replies(table_written(table, wi, wa as int, data), ri, ra as int, width)
}

/// The replies that control tables give after a write of `values` to distinct ids
/// decode to exactly those values.
pub proof fn lemma_replies_after_write(table: spec_fn(u8, int) -> u8, l: Layout, ids: Seq<u8>, values: Seq<i64>)
    requires
        supported(l),
        ids.no_duplicates(),
        values.len() == ids.len(),
        encoded(l, values) is Some,
    ensures
        decoded(
            l,
            table_replies(table_written(table, ids, l.address as int, encoded(l, values)->Some_0), ids, l.address as int, l.size as nat),
            ids.len(),
        ) == Some(values),
{
    let address = l.address as int;
    let data = encoded(l, values)->Some_0;
    let after = table_written(table, ids, address, data);
    let rs = table_replies(after, ids, address, l.size as nat);
    assert forall|j: int| 0 <= j < ids.len() implies #[trigger] rs[j] == data[j] by {
        assert(wire_of(l, values[j] as int) is Some);
        lemma_wire_round_trip(l, values[j] as int);
        assert forall|k: int| 0 <= k < l.size implies rs[j][k] == data[j][k] by {
            let a = address + k;
            assert(0 <= j < ids.len() && ids[j] == ids[j] && address <= a < address + data[j].len());
            let i = choose|i: int| 0 <= i < ids.len() && ids[i] == ids[j] && address <= a < address + data[i].len();
            assert(i == j);
        }
        assert(rs[j] =~= data[j]);
    }
    assert forall|j: int| 0 <= j < ids.len() implies #[trigger] rs[j].len() == l.size by {
        assert(wire_of(l, values[j] as int) is Some);
        lemma_wire_round_trip(l, values[j] as int);
    }
    assert forall|j: int| 0 <= j < ids.len() implies value_of(l, #[trigger] rs[j]) as i64 == values[j] by {
        assert(wire_of(l, values[j] as int) is Some);
        lemma_wire_round_trip(l, values[j] as int);
    }
    assert(rs.map_values(|b: Seq<u8>| value_of(l, b) as i64) =~= values);
}

/// On a simulated bus, a get of a register right after a successful set of `values` to
/// the same distinct ids gives back `values`.
pub proof fn lemma_get_after_set(
    table: spec_fn(u8, int) -> u8,
    h0: Seq<BusOp>,
    h1: Seq<BusOp>,
    h2: Seq<BusOp>,
    name: Seq<char>,
    ids: Seq<u8>,
    values: Seq<i64>,
    w: Result<(), BusError>,
    r: Result<Vec<i64>, BusError>,
)
    requires
        ids.no_duplicates(),
        write_done(h0, h1, name, ids, values, w),
        w is Ok,
        read_done(h1, h2, name, ids, r),
        ids.len() > 0 ==> simulated_bus(table, h1, h2),
    ensures
        r matches Ok(v) && v@ == values,
{
    if ids.len() > 0 {
        let l = layout_of(name)->Some_0;
        lemma_replies_after_write(table, l, ids, values);
        assert(read_fits(ids.len())) by (nonlinear_arith)
            requires
                write_fits(ids.len(), l.size as nat),
        ;
    } else {
        assert(values =~= Seq::<i64>::empty());
    }
}

/// On a simulated bus, a get of a position register right after a successful set of
/// angles to the same distinct ids gives back each angle to within half a tick.
pub proof fn lemma_get_angles_after_set(
    table: spec_fn(u8, int) -> u8,
    h0: Seq<BusOp>,
    h1: Seq<BusOp>,
    h2: Seq<BusOp>,
    name: Seq<char>,
    ids: Seq<u8>,
    angles: Seq<i64>,
    w: Result<(), BusError>,
    r: Result<Vec<i64>, BusError>,
)
    requires
        ids.no_duplicates(),
        forall|i: int| 0 <= i < angles.len() ==> MIN_TICK_RANGE_ANGLE <= #[trigger] angles[i] <= MAX_TICK_RANGE_ANGLE,
        write_done(h0, h1, name, ids, angle_ticks(angles), w),
        w is Ok,
        read_angles_done(h1, h2, name, ids, r),
        ids.len() > 0 ==> simulated_bus(table, h1, h2),
    ensures
        r matches Ok(v) && v@.len() == angles.len() && forall|i: int|
            0 <= i < angles.len() ==> -767 <= #[trigger] v@[i] - angles[i] <= 767,
{
    let ticks = angle_ticks(angles);
    if ids.len() > 0 {
        let l = layout_of(name)->Some_0;
        lemma_replies_after_write(table, l, ids, ticks);
        assert(read_fits(ids.len())) by (nonlinear_arith)
            requires
                write_fits(ids.len(), l.size as nat),
        ;
    }
    assert(read_values(h2, name, ids) == Some(ticks)) by {
        if ids.len() == 0 {
            assert(ticks =~= Seq::<i64>::empty());
        }
    }
    assert forall|i: int| 0 <= i < angles.len() implies -767 <= #[trigger] tick_angle(ticks[i] as int) - angles[i] <= 767 by {
        lemma_angle_round_trip(angles[i] as int);
        assert(-2147483648 <= angle_tick(angles[i] as int) <= 2147483647);
    }
}

/// On a simulated bus, a get of a speed register right after a successful set of
/// speeds to the same distinct ids gives back each speed to within half a tick per
/// second, with its sign or zero.
pub proof fn lemma_get_speeds_after_set(
    table: spec_fn(u8, int) -> u8,
    h0: Seq<BusOp>,
    h1: Seq<BusOp>,
    h2: Seq<BusOp>,
    name: Seq<char>,
    ids: Seq<u8>,
    speeds: Seq<i64>,
    w: Result<(), BusError>,
    r: Result<Vec<i64>, BusError>,
)
    requires
        ids.no_duplicates(),
        forall|i: int| 0 <= i < speeds.len() ==> MIN_TICK_RANGE_ANGLE <= #[trigger] speeds[i] <= MAX_TICK_RANGE_ANGLE,
        write_done(h0, h1, name, ids, speed_steps(speeds), w),
        w is Ok,
        read_speeds_done(h1, h2, name, ids, r),
        ids.len() > 0 ==> simulated_bus(table, h1, h2),
    ensures
        r matches Ok(v) && v@.len() == speeds.len() && forall|i: int|
            0 <= i < speeds.len() ==> -767 <= #[trigger] v@[i] - speeds[i] <= 767 && (speeds[i] < 0 ==> v@[i] <= 0)
                && (speeds[i] >= 0 ==> v@[i] >= 0),
{
    let steps = speed_steps(speeds);
    if ids.len() > 0 {
        let l = layout_of(name)->Some_0;
        lemma_replies_after_write(table, l, ids, steps);
        assert(read_fits(ids.len())) by (nonlinear_arith)
            requires
                write_fits(ids.len(), l.size as nat),
        ;
    }
    assert(read_values(h2, name, ids) == Some(steps)) by {
        if ids.len() == 0 {
            assert(steps =~= Seq::<i64>::empty());
        }
    }
    assert forall|i: int| 0 <= i < speeds.len() implies -767 <= #[trigger] step_speed(steps[i] as int) - speeds[i] <= 767
        && (speeds[i] < 0 ==> step_speed(steps[i] as int) <= 0) && (speeds[i] >= 0 ==> step_speed(steps[i] as int) >= 0) by {
        lemma_speed_accuracy(speeds[i] as int);
    }
}

/// `n` copies of `x`.
pub open spec fn uniform<A>(n: nat, x: A) -> Seq<A> {
    Seq::new(n, |i: int| x)
}

/// The ticks that a write of angles in microradians sends.
pub open spec fn angle_ticks(angles: Seq<i64>) -> Seq<i64> {
    angles.map_values(|a: i64| angle_tick(a as int) as i64)
}

/// The tick rates that a write of speeds in microradians per second sends.
pub open spec fn speed_steps(speeds: Seq<i64>) -> Seq<i64> {
    speeds.map_values(|v: i64| speed_step(v as int) as i64)
}

/// The layout of the register called `name`, where the library can read and write it.
fn supported_layout(name: &str) -> (r: Option<Layout>)
    ensures
        r == layout_of(name@),
{
    match register_layout(name) {
        None => None,
        Some(l) => {
            if l.size < 1 || l.size > 2 {
                return None;
            }
            if let WireEncoding::SignMagnitude { sign_bit } = l.encoding {
                if sign_bit < 1 || sign_bit >= 8 * l.size {
                    return None;
                }
            }
            Some(l)
        },
    }
}

/// The register access layer over one bus.
pub struct Io<T: Transport> {
    transport: T,
    history: Ghost<Seq<BusOp>>,
}

impl<T: Transport> Io<T> {
    /// Every transaction issued so far, oldest first.
    pub closed spec fn history(&self) -> Seq<BusOp> {
        self.history@
    }

    /// The layer over `transport`, before any transaction.
    pub fn new(transport: T) -> (io: Self)
        ensures
            io.history() == Seq::<BusOp>::empty(),
    {
        Io { transport, history: Ghost(Seq::empty()) }
    }

    /// The transport underneath.
    pub fn transport(&self) -> &T {
        &self.transport
    }

    /// Reads the register called `name` from every id, in one transaction.
    pub fn read(&mut self, name: &str, ids: &Vec<u8>) -> (r: Result<Vec<i64>, BusError>)
        ensures
            read_done(old(self).history(), final(self).history(), name@, ids@, r),
    {
        let layout = match supported_layout(name) {
            None => return Err(BusError::UnknownRegister),
            Some(l) => l,
        };
        if ids.len() == 0 {
            return Ok(Vec::new());
        }
        if ids.len() > MAX_SYNC_BYTES {
            return Err(BusError::PreconditionViolation);
        }
        let answer = self.transport.sync_read(ids, layout.address, layout.size);
        match answer {
            Err(message) => {
                self.history = Ghost(self.history@.push(BusOp::Read {
                    ids: ids@,
                    address: layout.address,
                    width: layout.size as nat,
                    replies: None,
                }));
                assert(self.history@.drop_last() =~= old(self).history@);
                Err(BusError::IoFailure(message))
            },
            Ok(replies) => {
                let ghost rs = replies@.map_values(|b: Vec<u8>| b@);
                self.history = Ghost(self.history@.push(BusOp::Read {
                    ids: ids@,
                    address: layout.address,
                    width: layout.size as nat,
                    replies: Some(rs),
                }));
                assert(self.history@.drop_last() =~= old(self).history@);
                if replies.len() != ids.len() {
                    return Err(BusError::IoFailure(String::from_str("wrong number of replies")));
                }
                let mut values: Vec<i64> = Vec::new();
                let mut i: usize = 0;
                while i < replies.len()
                    invariant
                        0 <= i <= replies@.len(),
                        replies@.len() == ids@.len(),
                        supported(layout),
                        layout_of(name@) == Some(layout),
                        1 <= ids@.len() <= MAX_SYNC_BYTES,
                        self.history@.len() == old(self).history@.len() + 1,
                        self.history@.drop_last() == old(self).history@,
                        self.history@.last() == (BusOp::Read {
                            ids: ids@,
                            address: layout.address,
                            width: layout.size as nat,
                            replies: Some(rs),
                        }),
                        rs == replies@.map_values(|b: Vec<u8>| b@),
                        values@.len() == i,
                        forall|j: int| 0 <= j < i ==> rs[j].len() == layout.size,
                        forall|j: int| 0 <= j < i ==> values@[j] == value_of(layout, #[trigger] rs[j]) as i64,
                    decreases replies@.len() - i,
                {
                    if replies[i].len() != layout.size as usize {
                        assert(rs[i as int] == replies@[i as int]@);
                        assert(rs[i as int].len() != layout.size);
                        assert(decoded(layout, rs, ids@.len()) is None);
                        return Err(BusError::IoFailure(String::from_str("reply of the wrong width")));
                    }
                    values.push(decode_value(layout, &replies[i]));
                    i += 1;
                }
                assert(values@ =~= rs.map_values(|b: Seq<u8>| value_of(layout, b) as i64));
                Ok(values)
            },
        }
    }

    /// Writes `values[i]` to the register called `name` of `ids[i]`, for every i, in one
    /// transaction.
    pub fn write(&mut self, name: &str, ids: &Vec<u8>, values: &Vec<i64>) -> (r: Result<(), BusError>)
        ensures
            write_done(old(self).history(), final(self).history(), name@, ids@, values@, r),
    {
        let layout = match supported_layout(name) {
            None => return Err(BusError::UnknownRegister),
            Some(l) => l,
        };
        if values.len() != ids.len() {
            return Err(BusError::PreconditionViolation);
        }
        if ids.len() > MAX_SYNC_BYTES {
            assert(!write_fits(ids@.len(), layout.size as nat)) by (nonlinear_arith)
                requires
                    ids@.len() > MAX_SYNC_BYTES,
                    layout.size >= 1,
            ;
            return Err(BusError::PreconditionViolation);
        }
        let n: usize = ids.len();
        let per_id: usize = layout.size as usize + 1;
        assert(n * per_id <= 3 * MAX_SYNC_BYTES) by (nonlinear_arith)
            requires
                n <= MAX_SYNC_BYTES,
                per_id <= 3,
        ;
        if n * per_id > MAX_SYNC_BYTES {
            return Err(BusError::PreconditionViolation);
        }
        let mut data: Vec<Vec<u8>> = Vec::new();
        let mut i: usize = 0;
        while i < values.len()
            invariant
                0 <= i <= values@.len(),
                values@.len() == ids@.len(),
                supported(layout),
                layout_of(name@) == Some(layout),
                write_fits(ids@.len(), layout.size as nat),
                self.history@ == old(self).history@,
                data@.len() == i,
                forall|j: int| 0 <= j < i ==> wire_of(layout, values@[j] as int) is Some,
                forall|j: int| 0 <= j < i ==> (#[trigger] data@[j])@ == wire_of(layout, values@[j] as int)->Some_0,
                forall|j: int| 0 <= j < i ==> (#[trigger] data@[j])@.len() == layout.size,
            decreases values@.len() - i,
        {
            match encode_value(layout, values[i]) {
                None => {
                    assert(wire_of(layout, values@[i as int] as int) is None);
                    assert(encoded(layout, values@) is None);
                    return Err(BusError::OutOfRange);
                },
                Some(bytes) => {
                    proof {
                        lemma_wire_round_trip(layout, values@[i as int] as int);
                    }
                    data.push(bytes);
                },
            }
            i += 1;
        }
        let ghost sent = data@.map_values(|b: Vec<u8>| b@);
        assert(encoded(layout, values@) == Some(sent)) by {
            assert(sent =~= values@.map_values(|v: i64| wire_of(layout, v as int)->Some_0));
        }
        if ids.len() == 0 {
            return Ok(());
        }
        let answer = self.transport.sync_write(ids, layout.address, &data);
        self.history = Ghost(self.history@.push(BusOp::Write {
            ids: ids@,
            address: layout.address,
            data: sent,
            ok: answer is Ok,
        }));
        assert(self.history@.drop_last() =~= old(self).history@);
        match answer {
            Ok(()) => Ok(()),
            Err(message) => Err(BusError::IoFailure(message)),
        }
    }

    /// Reads a position register from every id, as ticks.
    pub fn read_ticks(&mut self, name: &str, ids: &Vec<u8>) -> (r: Result<Vec<i32>, BusError>)
        ensures
            read_ticks_done(old(self).history(), final(self).history(), name@, ids@, r),
    {
        let values = self.read(name, ids)?;
        proof {
            lemma_values_in_range(final(self).history(), name@, ids@);
        }
        let mut ticks: Vec<i32> = Vec::new();
        let mut i: usize = 0;
        while i < values.len()
            invariant
                0 <= i <= values@.len(),
                forall|j: int| 0 <= j < values@.len() ==> -65536 < #[trigger] values@[j] < 65536,
                ticks@ == values@.take(i as int).map_values(|t: i64| t as i32),
            decreases values@.len() - i,
        {
            ticks.push(values[i] as i32);
            proof {
                assert(values@.take(i + 1) == values@.take(i as int).push(values@[i as int]));
            }
            i += 1;
        }
        assert(values@.take(values@.len() as int) == values@);
        Ok(ticks)
    }

    /// Reads a position register from every id, as angles in microradians.
    pub fn read_angles(&mut self, name: &str, ids: &Vec<u8>) -> (r: Result<Vec<i64>, BusError>)
        ensures
            read_angles_done(old(self).history(), final(self).history(), name@, ids@, r),
    {
        let values = self.read(name, ids)?;
        proof {
            lemma_values_in_range(final(self).history(), name@, ids@);
        }
        let mut angles: Vec<i64> = Vec::new();
        let mut i: usize = 0;
        while i < values.len()
            invariant
                0 <= i <= values@.len(),
                forall|j: int| 0 <= j < values@.len() ==> -65536 < #[trigger] values@[j] < 65536,
                angles@ == values@.take(i as int).map_values(|t: i64| tick_angle(t as int) as i64),
            decreases values@.len() - i,
        {
            angles.push(ticks_to_microradians(values[i] as i32));
            proof {
                assert(values@.take(i + 1) == values@.take(i as int).push(values@[i as int]));
            }
            i += 1;
        }
        assert(values@.take(values@.len() as int) == values@);
        Ok(angles)
    }

    /// Reads a speed register from every id, as speeds in microradians per second.
    pub fn read_speeds(&mut self, name: &str, ids: &Vec<u8>) -> (r: Result<Vec<i64>, BusError>)
        ensures
            read_speeds_done(old(self).history(), final(self).history(), name@, ids@, r),
    {
        let values = self.read(name, ids)?;
        proof {
            lemma_values_in_range(final(self).history(), name@, ids@);
        }
        let mut speeds: Vec<i64> = Vec::new();
        let mut i: usize = 0;
        while i < values.len()
            invariant
                0 <= i <= values@.len(),
                forall|j: int| 0 <= j < values@.len() ==> -65536 < #[trigger] values@[j] < 65536,
                speeds@ == values@.take(i as int).map_values(|s: i64| step_speed(s as int) as i64),
            decreases values@.len() - i,
        {
            speeds.push(steps_to_speed(values[i] as i32));
            proof {
                assert(values@.take(i + 1) == values@.take(i as int).push(values@[i as int]));
            }
            i += 1;
        }
        assert(values@.take(values@.len() as int) == values@);
        Ok(speeds)
    }

    /// Writes angles in microradians to a position register, each as its nearest tick.
    pub fn write_angles(&mut self, name: &str, ids: &Vec<u8>, angles: &Vec<i64>) -> (r: Result<(), BusError>)
        ensures
            write_done(old(self).history(), final(self).history(), name@, ids@, angle_ticks(angles@), r),
    {
        let mut ticks: Vec<i64> = Vec::new();
        let mut i: usize = 0;
        while i < angles.len()
            invariant
                0 <= i <= angles@.len(),
                ticks@ == angle_ticks(angles@.take(i as int)),
            decreases angles@.len() - i,
        {
            ticks.push(microradians_to_ticks(angles[i]) as i64);
            proof {
                assert(angles@.take(i + 1) == angles@.take(i as int).push(angles@[i as int]));
                assert(angle_ticks(angles@.take(i + 1)) =~= angle_ticks(angles@.take(i as int)).push(
                    angle_tick(angles@[i as int] as int) as i64));
            }
            i += 1;
        }
        assert(angles@.take(angles@.len() as int) == angles@);
        self.write(name, ids, &ticks)
    }

    /// Writes speeds in microradians per second to a speed register, each as its
    /// nearest tick rate.
    pub fn write_speeds(&mut self, name: &str, ids: &Vec<u8>, speeds: &Vec<i64>) -> (r: Result<(), BusError>)
        ensures
            write_done(old(self).history(), final(self).history(), name@, ids@, speed_steps(speeds@), r),
    {
        let mut steps: Vec<i64> = Vec::new();
        let mut i: usize = 0;
        while i < speeds.len()
            invariant
                0 <= i <= speeds@.len(),
                steps@ == speed_steps(speeds@.take(i as int)),
            decreases speeds@.len() - i,
        {
            steps.push(speed_to_steps(speeds[i]) as i64);
            proof {
                assert(speeds@.take(i + 1) == speeds@.take(i as int).push(speeds@[i as int]));
                assert(speed_steps(speeds@.take(i + 1)) =~= speed_steps(speeds@.take(i as int)).push(
                    speed_step(speeds@[i as int] as int) as i64));
            }
            i += 1;
        }
        assert(speeds@.take(speeds@.len() as int) == speeds@);
        self.write(name, ids, &steps)
    }
}

/// The values a successful read gives are below 2^16 in magnitude.
proof fn lemma_values_in_range(after: Seq<BusOp>, name: Seq<char>, ids: Seq<u8>)
    ensures
        read_values(after, name, ids) matches Some(vs) ==> forall|j: int|
            0 <= j < vs.len() ==> -65536 < #[trigger] vs[j] < 65536,
{
    if let Some(l) = layout_of(name) {
        if ids.len() > 0 && read_fits(ids.len()) {
            if let BusOp::Read { replies: Some(rs), .. } = after.last() {
                if let Some(vs) = decoded(l, rs, ids.len()) {
                    assert forall|j: int| 0 <= j < vs.len() implies -65536 < #[trigger] vs[j] < 65536 by {
                        crate::codec::lemma_value_range_of(l, rs[j]);
                    }
                }
            }
        }
    }
}

} // verus!
