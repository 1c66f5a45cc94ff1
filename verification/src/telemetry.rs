//! Decoding of raw attribute payloads into a telemetry snapshot.
//!
//! The iron exposes fourteen readable attributes, each identified by a fixed
//! 128-bit identifier and each carrying an unsigned 32-bit value as the first
//! four bytes of its payload, little endian. A snapshot either decodes fully
//! or is discarded: a failure on any one attribute aborts the whole read.

use vstd::prelude::*;

verus! {

/// Identifier of the attribute group that marks a device as the iron.
pub const IRON_SERVICE_ID: u128 = 0x9eae1000_9d0d_48c5_aa55_33e27f9bc533;

pub const ID_LIVE_TEMP: u128 = 0xd85ef001_168e_4a71_aa55_33e27f9bc533;
pub const ID_SETPOINT: u128 = 0xd85ef002_168e_4a71_aa55_33e27f9bc533;
pub const ID_DC_IN: u128 = 0xd85ef003_168e_4a71_aa55_33e27f9bc533;
pub const ID_HANDLE: u128 = 0xd85ef004_168e_4a71_aa55_33e27f9bc533;
pub const ID_POWER: u128 = 0xd85ef005_168e_4a71_aa55_33e27f9bc533;
pub const ID_POWER_SRC: u128 = 0xd85ef006_168e_4a71_aa55_33e27f9bc533;
pub const ID_TIP_RES: u128 = 0xd85ef007_168e_4a71_aa55_33e27f9bc533;
pub const ID_UPTIME: u128 = 0xd85ef008_168e_4a71_aa55_33e27f9bc533;
pub const ID_MOVEMENT: u128 = 0xd85ef009_168e_4a71_aa55_33e27f9bc533;
pub const ID_MAX_TEMP: u128 = 0xd85ef00a_168e_4a71_aa55_33e27f9bc533;
pub const ID_RAW_TIP: u128 = 0xd85ef00b_168e_4a71_aa55_33e27f9bc533;
pub const ID_HALL: u128 = 0xd85ef00c_168e_4a71_aa55_33e27f9bc533;
pub const ID_OP_MODE: u128 = 0xd85ef00d_168e_4a71_aa55_33e27f9bc533;
pub const ID_WATTS: u128 = 0xd85ef00e_168e_4a71_aa55_33e27f9bc533;

/// The fourteen attribute identifiers, in the fixed order in which a
/// snapshot's fields are read and assembled.
pub open spec fn field_ids_spec() -> Seq<u128> {
    seq![
        ID_LIVE_TEMP,
        ID_SETPOINT,
        ID_DC_IN,
        ID_HANDLE,
        ID_POWER,
        ID_POWER_SRC,
        ID_TIP_RES,
        ID_UPTIME,
        ID_MOVEMENT,
        ID_MAX_TEMP,
        ID_RAW_TIP,
        ID_HALL,
        ID_OP_MODE,
        ID_WATTS,
    ]
}

/// The fourteen attribute identifiers as a vector, for the caller that
/// drives the per-field reads.
pub fn field_ids() -> (r: Vec<u128>)
    ensures
        r@ == field_ids_spec(),
{
    let r: Vec<u128> = vec![
        ID_LIVE_TEMP,
        ID_SETPOINT,
        ID_DC_IN,
        ID_HANDLE,
        ID_POWER,
        ID_POWER_SRC,
        ID_TIP_RES,
        ID_UPTIME,
        ID_MOVEMENT,
        ID_MAX_TEMP,
        ID_RAW_TIP,
        ID_HALL,
        ID_OP_MODE,
        ID_WATTS,
    ];
    assert(r@ =~= field_ids_spec());
    r
}

/// One complete set of telemetry values from a single poll tick.
///
/// All values are read fresh on every tick; a snapshot is never mutated.
/// Temperatures are in degrees Celsius; `dc_input_voltage`, `power_level`
/// and `estimated_watts` are tenths-scaled; `uptime` and `last_movement`
/// are in 100 ms ticks; `operating_mode` is a small enum-like integer
/// (0 = menu, 1 = soldering, 2 = boost, 3 = idle sleep).
#[derive(Clone, Copy, Debug, PartialEq, Eq, Structural)]
pub struct IronStreamingState {
    pub live_temp: u32,
    pub setpoint_temp: u32,
    pub dc_input_voltage: u32,
    pub handle_temp: u32,
    pub power_level: u32,
    pub power_source: u32,
    pub tip_resistance: u32,
    pub uptime: u32,
    pub last_movement: u32,
    pub max_temp: u32,
    pub raw_tip_reading: u32,
    pub hall_sensor: u32,
    pub operating_mode: u32,
    pub estimated_watts: u32,
}

/// Why a single attribute read failed to yield a value.
#[derive(Clone, Copy, Debug, PartialEq, Eq, Structural)]
pub enum DecodeError {
    /// The device does not advertise the expected attribute.
    AttributeNotFound,
    /// The radio link rejected or timed out the read.
    TransportReadError,
    /// The payload held fewer than four bytes.
    MalformedPayload,
}

/// The unsigned little-endian value of the first four bytes of `b`.
pub open spec fn u32_le_spec(b: Seq<u8>) -> int
    recommends
        b.len() >= 4,
{
    b[0] + b[1] * 0x100 + b[2] * 0x1_0000 + b[3] * 0x100_0000
}

/// Interprets the first four bytes of a payload as an unsigned
/// little-endian integer; fails when fewer than four bytes came back.
pub fn decode_u32_le(data: &Vec<u8>) -> (r: Result<u32, DecodeError>)
    ensures
        data@.len() >= 4 ==> r == Ok::<u32, DecodeError>(u32_le_spec(data@) as u32),
        data@.len() >= 4 ==> u32_le_spec(data@) <= u32::MAX,
        data@.len() < 4 ==> r == Err::<u32, DecodeError>(DecodeError::MalformedPayload),
{
    if data.len() < 4 {
        return Err(DecodeError::MalformedPayload);
    }
    let b0 = data[0] as u32;
    let b1 = data[1] as u32;
    let b2 = data[2] as u32;
    let b3 = data[3] as u32;
    Ok(b0 + b1 * 0x100 + b2 * 0x1_0000 + b3 * 0x100_0000)
}

/// Index of the first attribute in `ids` that carries `target`, if any.
///
/// This is the lookup step of one attribute read: the caller scans the
/// device's exposed identifiers for the one it wants to read next.
pub fn find_characteristic(ids: &Vec<u128>, target: u128) -> (r: Option<usize>)
    ensures
        match r {
            Some(i) => i < ids@.len() && ids@[i as int] == target
                && forall|j: int| 0 <= j < i ==> ids@[j] != target,
            None => forall|j: int| 0 <= j < ids@.len() ==> ids@[j] != target,
        },
{
    let mut i: usize = 0;
    while i < ids.len()
        invariant
            i <= ids@.len(),
            forall|j: int| 0 <= j < i ==> ids@[j] != target,
        decreases ids@.len() - i,
    {
        if ids[i] == target {
            return Some(i);
        }
        i += 1;
    }
    None
}

/// Whether a device's advertised identifiers include the iron's service
/// identifier; this is the test that discovery applies to each peripheral.
pub fn advertises_iron_service(services: &Vec<u128>) -> (r: bool)
    ensures
        r == exists|i: int| 0 <= i < services@.len() && services@[i] == IRON_SERVICE_ID,
{
    let mut i: usize = 0;
    while i < services.len()
        invariant
            i <= services@.len(),
            forall|j: int| 0 <= j < i ==> services@[j] != IRON_SERVICE_ID,
        decreases services@.len() - i,
    {
        if services[i] == IRON_SERVICE_ID {
            return true;
        }
        i += 1;
    }
    false
}

/// Outcome of one attribute read, as the plain facts the caller gathered:
/// whether the lookup found the attribute, and the payload the transport
/// handed back (`None` when the read itself was rejected or timed out).
pub fn attribute_value(found: bool, payload: &Option<Vec<u8>>) -> (r: Result<u32, DecodeError>)
    ensures
        !found ==> r == Err::<u32, DecodeError>(DecodeError::AttributeNotFound),
        found ==> r == (match *payload {
            None => Err::<u32, DecodeError>(DecodeError::TransportReadError),
            Some(d) => if d@.len() < 4 {
                Err::<u32, DecodeError>(DecodeError::MalformedPayload)
            } else {
                Ok::<u32, DecodeError>(u32_le_spec(d@) as u32)
            },
        }),
{
    if !found {
        return Err(DecodeError::AttributeNotFound);
    }
    match payload {
        None => Err(DecodeError::TransportReadError),
        Some(d) => decode_u32_le(d),
    }
}

/// `fields[i]` is the first of the fourteen per-field outcomes that failed.
pub open spec fn fails_first_at(fields: Seq<Result<u32, DecodeError>>, i: int) -> bool {
    &&& 0 <= i < fields.len()
    &&& fields[i] is Err
    &&& forall|j: int| 0 <= j < i ==> fields[j] is Ok
}

/// The snapshot assembled from fourteen successful field reads, taken in
/// the order of `field_ids_spec`.
pub open spec fn snapshot_of(fields: Seq<Result<u32, DecodeError>>) -> IronStreamingState
    recommends
        fields.len() == 14,
{
    IronStreamingState {
        live_temp: fields[0]->Ok_0,
        setpoint_temp: fields[1]->Ok_0,
        dc_input_voltage: fields[2]->Ok_0,
        handle_temp: fields[3]->Ok_0,
        power_level: fields[4]->Ok_0,
        power_source: fields[5]->Ok_0,
        tip_resistance: fields[6]->Ok_0,
        uptime: fields[7]->Ok_0,
        last_movement: fields[8]->Ok_0,
        max_temp: fields[9]->Ok_0,
        raw_tip_reading: fields[10]->Ok_0,
        hall_sensor: fields[11]->Ok_0,
        operating_mode: fields[12]->Ok_0,
        estimated_watts: fields[13]->Ok_0,
    }
}

/// Assembles a snapshot from the fourteen per-field outcomes, in order.
///
/// The snapshot is all-or-nothing: it is produced exactly when every field
/// read succeeded, and otherwise the first failure is reported and no
/// partial snapshot exists.
pub fn snapshot_from_fields(fields: &Vec<Result<u32, DecodeError>>) -> (r: Result<
    IronStreamingState,
    DecodeError,
>)
    requires
        fields@.len() == 14,
    ensures
        r is Ok <==> (forall|i: int| 0 <= i < 14 ==> fields@[i] is Ok),
        r is Ok ==> r->Ok_0 == snapshot_of(fields@),
        r is Err ==> exists|i: int|
            fails_first_at(fields@, i) && r == Err::<IronStreamingState, DecodeError>(
                fields@[i]->Err_0,
            ),
{
    let mut vals: Vec<u32> = Vec::new();
    let mut i: usize = 0;
    while i < 14
        invariant
            fields@.len() == 14,
            i <= 14,
            vals@.len() == i,
            forall|j: int|
                #![trigger fields@[j]]
                0 <= j < i ==> fields@[j] is Ok && vals@[j] == fields@[j]->Ok_0,
        decreases 14 - i,
    {
        let f: Result<u32, DecodeError> = fields[i];
        match f {
            Ok(v) => {
                vals.push(v);
            },
            Err(e) => {
                proof {
                    assert(fails_first_at(fields@, i as int));
                }
                return Err(e);
            },
        }
        i += 1;
    }
    Ok(
        IronStreamingState {
            live_temp: vals[0],
            setpoint_temp: vals[1],
            dc_input_voltage: vals[2],
            handle_temp: vals[3],
            power_level: vals[4],
            power_source: vals[5],
            tip_resistance: vals[6],
            uptime: vals[7],
            last_movement: vals[8],
            max_temp: vals[9],
            raw_tip_reading: vals[10],
            hall_sensor: vals[11],
            operating_mode: vals[12],
            estimated_watts: vals[13],
        },
    )
}

} // verus!
