//! How register values lie on the wire, as the STS3215 definition of `rustypot` lays
//! them out: the address, width and sign encoding of each register, and the
//! little-endian bytes of a value.
use vstd::arithmetic::div_mod::lemma_fundamental_div_mod_converse;
use vstd::arithmetic::power2::{lemma2_to64, lemma_pow2_pos, lemma_pow2_strictly_increases, pow2};
use vstd::prelude::*;

verus! {

/// How a register's raw bits carry a sign.
#[derive(Debug, Clone, Copy, PartialEq, Eq, Structural)]
pub enum WireEncoding {
    /// No sign: a plain unsigned integer.
    Unsigned,
    /// Two's complement over the register's full width.
    TwosComplement,
    /// The magnitude in the bits below `sign_bit`, and bit `sign_bit` set for a negative
    /// value.
    SignMagnitude { sign_bit: u8 },
}

/// Where a register lies in the control table, and how its value is encoded.
#[derive(Debug, Clone, Copy, PartialEq, Eq, Structural)]
pub struct Layout {
    /// Address of the first byte.
    pub address: u8,
    /// Width in bytes.
    pub size: u8,
    pub encoding: WireEncoding,
}

/// The layout that the STS3215 definition of `rustypot` gives the register called
/// `name`, or `None` where it has no such register.
pub uninterp spec fn sts3215_register(name: Seq<char>) -> Option<Layout>;

/// Relies on `rustypot::servo::feetech::sts3215::register`: the address, size and
/// encoding of a register of the STS3215 control table, looked up by name.
#[verifier::external_body]
pub(crate) fn register_layout(name: &str) -> (r: Option<Layout>)
    ensures
        r == sts3215_register(name@),
{
    rustypot::servo::feetech::sts3215::register(name).map(|info| Layout {
        address: info.addr,
        size: info.size,
        encoding: match info.encoding {
            rustypot::servo::Encoding::Unsigned => WireEncoding::Unsigned,
            rustypot::servo::Encoding::TwosComplement => WireEncoding::TwosComplement,
            rustypot::servo::Encoding::SignMagnitude { sign_bit } => WireEncoding::SignMagnitude { sign_bit },
        },
    })
}

/// The layouts that the library reads and writes: one or two bytes, and a sign bit, if
/// any, inside them.
pub open spec fn supported(l: Layout) -> bool {
    &&& 1 <= l.size <= 2
    &&& (l.encoding matches WireEncoding::SignMagnitude { sign_bit } ==> 1 <= sign_bit < 8 * l.size)
}

/// The raw wire integer that carries `value` in `size` bytes, or `None` where the value
/// does not fit.
pub open spec fn raw_of(encoding: WireEncoding, value: int, size: nat) -> Option<int> {
    let bits = 8 * size;
    match encoding {
        WireEncoding::Unsigned => if 0 <= value < pow2(bits) {
            Some(value)
        } else {
            None
        },
        WireEncoding::TwosComplement => if -pow2((bits - 1) as nat) <= value < pow2((bits - 1) as nat) {
            Some(if value < 0 { value + pow2(bits) } else { value })
        } else {
            None
        },
        WireEncoding::SignMagnitude { sign_bit } => {
            let magnitude = if value < 0 { -value } else { value };
            if magnitude < pow2(sign_bit as nat) {
                Some(if value < 0 { magnitude + pow2(sign_bit as nat) } else { value })
            } else {
                None
            }
        },
    }
}

/// The value that a raw wire integer of `size` bytes carries.
pub open spec fn value_of_raw(encoding: WireEncoding, raw: int, size: nat) -> int {
    let bits = 8 * size;
    match encoding {
        WireEncoding::Unsigned => raw,
        WireEncoding::TwosComplement => if raw >= pow2((bits - 1) as nat) {
            raw - pow2(bits)
        } else {
            raw
        },
        WireEncoding::SignMagnitude { sign_bit } => {
            let magnitude = raw % (pow2(sign_bit as nat) as int);
            if (raw / (pow2(sign_bit as nat) as int)) % 2 == 1 {
                -magnitude
            } else {
                magnitude
            }
        },
    }
}

/// The little-endian bytes of a raw integer one or two bytes wide.
pub open spec fn le_bytes(raw: int, size: nat) -> Seq<u8> {
    if size == 1 {
        seq![raw as u8]
    } else {
        seq![(raw % 256) as u8, (raw / 256) as u8]
    }
}

/// The integer that one or two little-endian bytes stand for.
pub open spec fn le_value(b: Seq<u8>) -> int {
    if b.len() == 0 {
        0
    } else if b.len() == 1 {
        b[0] as int
    } else {
        b[0] + 256 * b[1]
    }
}

/// The bytes that write `value` to a register of layout `l`, or `None` where the value
/// does not fit.
pub open spec fn wire_of(l: Layout, value: int) -> Option<Seq<u8>> {
    match raw_of(l.encoding, value, l.size as nat) {
        Some(raw) => Some(le_bytes(raw, l.size as nat)),
        None => None,
    }
}

/// The value that a register of layout `l` carries in `bytes`.
pub open spec fn value_of(l: Layout, bytes: Seq<u8>) -> int {
    value_of_raw(l.encoding, le_value(bytes), l.size as nat)
}

/// Relies on `rustypot::servo::Encoding::encode`: the raw integer that carries `value`
/// in `size` bytes, or `None` where it does not fit.
#[verifier::external_body]
fn encode_raw(encoding: WireEncoding, value: i64, size: u8) -> (r: Option<u64>)
    requires
        1 <= size <= 2,
        encoding matches WireEncoding::SignMagnitude { sign_bit } ==> 1 <= sign_bit < 8 * size,
    ensures
        r matches Some(raw) ==> raw_of(encoding, value as int, size as nat) == Some(raw as int),
        r is None ==> raw_of(encoding, value as int, size as nat) is None,
{
    let encoding = match encoding {
        WireEncoding::Unsigned => rustypot::servo::Encoding::Unsigned,
        WireEncoding::TwosComplement => rustypot::servo::Encoding::TwosComplement,
        WireEncoding::SignMagnitude { sign_bit } => rustypot::servo::Encoding::SignMagnitude { sign_bit },
    };
    encoding.encode(value, size)
}

/// Relies on `rustypot::servo::Encoding::decode`: the value that a raw integer of
/// `size` bytes carries.
#[verifier::external_body]
fn decode_raw(encoding: WireEncoding, raw: u64, size: u8) -> (r: i64)
    requires
        1 <= size <= 2,
        raw < pow2(8 * size as nat),
        encoding matches WireEncoding::SignMagnitude { sign_bit } ==> 1 <= sign_bit < 8 * size,
    ensures
        r == value_of_raw(encoding, raw as int, size as nat),
{
    let encoding = match encoding {
        WireEncoding::Unsigned => rustypot::servo::Encoding::Unsigned,
        WireEncoding::TwosComplement => rustypot::servo::Encoding::TwosComplement,
        WireEncoding::SignMagnitude { sign_bit } => rustypot::servo::Encoding::SignMagnitude { sign_bit },
    };
    encoding.decode(raw, size)
}

/// Relies on `rustypot::servo::WordOrder::to_bytes` with the STS3215's word order,
/// little-endian: the low `size` bytes of `raw`, least significant first.
#[verifier::external_body]
fn raw_to_bytes(raw: u64, size: u8) -> (r: Vec<u8>)
    requires
        1 <= size <= 2,
        raw < pow2(8 * size as nat),
    ensures
        r@ == le_bytes(raw as int, size as nat),
{
    rustypot::servo::feetech::sts3215::INFO.word_order.to_bytes(raw, size as usize)
}

/// Relies on `rustypot::servo::WordOrder::from_bytes` with the STS3215's word order,
/// little-endian: the integer that at most two bytes stand for, least significant first.
#[verifier::external_body]
fn bytes_to_raw(bytes: &Vec<u8>) -> (r: u64)
    requires
        bytes@.len() <= 2,
    ensures
        r == le_value(bytes@),
{
    rustypot::servo::feetech::sts3215::INFO.word_order.from_bytes(bytes)
}

/// The bytes that write `value` to a register of layout `l`, or `None` where the value
/// does not fit.
pub fn encode_value(l: Layout, value: i64) -> (r: Option<Vec<u8>>)
    requires
        supported(l),
    ensures
        r matches Some(b) ==> wire_of(l, value as int) == Some(b@),
        r is None ==> wire_of(l, value as int) is None,
{
    match encode_raw(l.encoding, value, l.size) {
        None => None,
        Some(raw) => {
            proof {
                lemma_raw_in_width(l, value as int);
            }
            Some(raw_to_bytes(raw, l.size))
        },
    }
}

/// The value that a register of layout `l` carries in `bytes`.
pub fn decode_value(l: Layout, bytes: &Vec<u8>) -> (v: i64)
    requires
        supported(l),
        bytes@.len() == l.size,
    ensures
        v == value_of(l, bytes@),
        -65536 < v < 65536,
{
    let raw = bytes_to_raw(bytes);
    proof {
        lemma2_to64();
        lemma_value_range(l, bytes@);
    }
    decode_raw(l.encoding, raw, l.size)
}

/// A raw integer that carries a value fits in the register's width.
proof fn lemma_raw_in_width(l: Layout, value: int)
    requires
        supported(l),
    ensures
        raw_of(l.encoding, value, l.size as nat) matches Some(raw) ==> 0 <= raw < pow2(8 * l.size as nat),
{
    lemma2_to64();
    if let WireEncoding::SignMagnitude { sign_bit } = l.encoding {
        lemma_pow2_pos(sign_bit as nat);
        lemma_pow2_strictly_increases(sign_bit as nat, (sign_bit + 1) as nat);
        if sign_bit + 1 < 8 * l.size {
            lemma_pow2_strictly_increases((sign_bit + 1) as nat, 8 * l.size as nat);
        }
        assert(pow2((sign_bit + 1) as nat) == 2 * pow2(sign_bit as nat)) by {
            vstd::arithmetic::power2::lemma_pow2_unfold((sign_bit + 1) as nat);
        }
    }
}

/// The bytes of a register value read back as an integer of the register's width, and
/// the values that such bytes carry are below 2^16 in magnitude.
proof fn lemma_value_range(l: Layout, b: Seq<u8>)
    requires
        supported(l),
        b.len() == l.size,
    ensures
        0 <= le_value(b) < pow2(8 * l.size as nat),
        -65536 < value_of(l, b) < 65536,
{
    lemma2_to64();
    if let WireEncoding::SignMagnitude { sign_bit } = l.encoding {
        lemma_pow2_pos(sign_bit as nat);
        vstd::arithmetic::div_mod::lemma_mod_bound(le_value(b), pow2(sign_bit as nat) as int);
        lemma_pow2_strictly_increases(sign_bit as nat, 8 * l.size as nat);
    }
}

/// The values that bytes of a supported register's width carry are below 2^16 in
/// magnitude.
pub proof fn lemma_value_range_of(l: Layout, b: Seq<u8>)
    requires
        supported(l),
        b.len() == l.size,
    ensures
        -65536 < value_of(l, b) < 65536,
{
    lemma_value_range(l, b);
}

/// A value that fits a supported register goes out as bytes of the register's width,
/// and those bytes carry the value back.
pub proof fn lemma_wire_round_trip(l: Layout, value: int)
    requires
        supported(l),
        wire_of(l, value) is Some,
    ensures
        wire_of(l, value)->Some_0.len() == l.size,
        value_of(l, wire_of(l, value)->Some_0) == value,
{
    lemma2_to64();
    lemma_raw_in_width(l, value);
    let raw = raw_of(l.encoding, value, l.size as nat)->Some_0;
    let b = le_bytes(raw, l.size as nat);
    assert(le_value(b) == raw);
    if let WireEncoding::SignMagnitude { sign_bit } = l.encoding {
        let p = pow2(sign_bit as nat) as int;
        lemma_pow2_pos(sign_bit as nat);
        if value < 0 {
            lemma_fundamental_div_mod_converse(raw, p, 1, -value);
        } else {
            lemma_fundamental_div_mod_converse(raw, p, 0, value);
        }
    }
}

} // verus!
