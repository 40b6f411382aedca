//! The BLE side of the light: advertising payloads and the light state characteristic.
use crate::light_ring::LightRing;
use crate::light_state::{
    be_value, capped, lemma_ble_payload_decodes_to_channels, lemma_le_bytes_of_le_value,
    lemma_level_is_min, le_bytes, le_value, packed, LightState, Rgb8,
};
use trouble_host::advertise::AdStructure;
use trouble_host::prelude::FromGatt;
use trouble_host::types::gatt_traits::FromGattError;
use vstd::endian::{endianness, Endian};
use vstd::math::min;
use vstd::prelude::*;
use vstd::string::StringSliceAdditionalSpecFns;

verus! {

/// The peripheral's advertised name.
pub const NAME: &'static str = "SleepLight";

/// The 128-bit UUID of the light service, advertised in the scan response.
pub const BLE_SELF_UUID: u128 = 0xf3e0c0018b6f4d2ea2d06b9c3f2a0000u128;

/// The UUID of the light service in the GATT table.
pub const LIGHT_SERVICE: u128 = 0xf3e0c0018b6f4d2ea2d06b9c3f2a0000u128;

/// Number of simultaneous connections the host supports.
pub const CONNECTIONS_MAX: usize = 1;

/// Number of L2CAP channels the host supports.
pub const L2CAP_CHANNELS_MAX: usize = 1;

/// The battery level the battery service starts with.
pub const INITIAL_BATTERY_LEVEL: u8 = 70;

/// Flags bit: LE General Discoverable Mode.
pub const LE_GENERAL_DISCOVERABLE: u8 = 0x02;

/// Flags bit: BR/EDR not supported (LE only).
pub const BR_EDR_NOT_SUPPORTED: u8 = 0x04;

/// Largest legacy advertising or scan response payload, in bytes.
pub const MAX_AD_LEN: usize = 31;

/// `trouble_host::Error`, the host's error type, carried opaquely.
#[verifier::external_type_specification]
#[verifier::external_body]
pub struct ExHostError(trouble_host::Error);

/// `trouble_host::types::gatt_traits::FromGattError`, carried opaquely.
#[verifier::external_type_specification]
#[verifier::external_body]
pub struct ExFromGattError(FromGattError);

/// One advertising data structure.
pub enum AdField {
    /// The flags structure (type 0x01).
    Flags(u8),
    /// The complete list of 16-bit service UUIDs (type 0x03), each little-endian.
    ServiceUuids16(Vec<[u8; 2]>),
    /// The complete list of 128-bit service UUIDs (type 0x07), each little-endian.
    ServiceUuids128(Vec<[u8; 16]>),
    /// The complete local name (type 0x09).
    CompleteLocalName(Vec<u8>),
}

/// The bytes of one advertising data structure: its length (type byte included),
/// its type, then its data.
pub open spec fn field_bytes(f: AdField) -> Seq<u8> {
    match f {
        AdField::Flags(flags) => seq![2u8, 1u8, flags],
        AdField::ServiceUuids16(uuids) => seq![(uuids@.len() * 2 + 1) as u8, 3u8] + uuids@.map_values(
            |u: [u8; 2]| u@,
        ).flatten(),
        AdField::ServiceUuids128(uuids) => seq![(uuids@.len() * 16 + 1) as u8, 7u8]
            + uuids@.map_values(|u: [u8; 16]| u@).flatten(),
        AdField::CompleteLocalName(name) => seq![(name@.len() + 1) as u8, 9u8] + name@,
    }
}

/// The bytes of a list of advertising data structures, one after the other.
pub open spec fn fields_bytes(fields: Seq<AdField>) -> Seq<u8>
    decreases fields.len(),
{
    if fields.len() == 0 {
        Seq::empty()
    } else {
        field_bytes(fields[0]) + fields_bytes(fields.drop_first())
    }
}

/// Encodes the structures with `AdStructure::encode_slice` into a buffer of
/// `capacity` bytes and returns the bytes written. Each structure is written as
/// its length, its type and its data; the encoding fails exactly when the
/// structures do not fit in the buffer.
#[verifier::external_body]
fn encode_ad_fields(fields: &Vec<AdField>, capacity: usize) -> (r: Result<Vec<u8>, trouble_host::Error>)
    ensures
        r is Ok <==> fields_bytes(fields@).len() <= capacity,
        r matches Ok(bytes) ==> bytes@ == fields_bytes(fields@),
{
    let items: Vec<AdStructure<'_>> = fields.iter().map(|f| match f {
        AdField::Flags(flags) => AdStructure::Flags(*flags),
        AdField::ServiceUuids16(u) => AdStructure::CompleteServiceUuids16(u),
        AdField::ServiceUuids128(u) => AdStructure::CompleteServiceUuids128(u),
        AdField::CompleteLocalName(n) => AdStructure::CompleteLocalName(n),
    }).collect();
    let mut buf = vec![0u8; capacity];
    let n = AdStructure::encode_slice(&items, &mut buf).map_err(trouble_host::Error::from)?;
    Ok(buf[..n].to_vec())
}

/// Byte `i` of `v` counted from the least significant end.
pub open spec fn u128_byte(v: u128, i: int) -> u8 {
    ((v >> ((8 * i) as u128)) & 0xff) as u8
}

/// The sixteen bytes of `v`, least significant first.
pub open spec fn u128_le_bytes(v: u128) -> Seq<u8> {
    Seq::new(16, |i: int| u128_byte(v, i))
}

/// The bytes of `v`, least significant first.
pub fn u128_to_le_bytes(v: u128) -> (bytes: [u8; 16])
    ensures
        bytes@ == u128_le_bytes(v),
{
    let mut bytes = [0u8; 16];
    let mut rest: u128 = v;
    let mut i: usize = 0;
    assert(v == v >> 0u128) by (bit_vector);
    while i < 16
        invariant
            i <= 16,
            rest == v >> ((8 * i) as u128),
            forall|j: int| 0 <= j < i ==> bytes@[j] == u128_byte(v, j),
        decreases 16 - i,
    {
        let byte = (rest & 0xff) as u8;
        assert(byte == u128_byte(v, i as int));
        bytes[i] = byte;
        let shift: u128 = (8 * i) as u128;
        let next = rest >> 8u128;
        assert(next == v >> (shift + 8)) by (bit_vector)
            requires
                rest == v >> shift,
                next == rest >> 8u128,
                shift < 128,
        ;
        rest = next;
        i = i + 1;
    }
    assert(bytes@ =~= u128_le_bytes(v));
    bytes
}

/// Why an advertising payload could not be built.
#[derive(Clone, Copy, PartialEq, Eq, Structural, Debug)]
pub enum AdvertiseError {
    /// The structures do not fit in a legacy advertising payload.
    InsufficientSpace,
}

/// The flags the peripheral advertises: LE general discoverable, BR/EDR not supported.
pub open spec fn adv_flags() -> u8 {
    LE_GENERAL_DISCOVERABLE | BR_EDR_NOT_SUPPORTED
}

/// The advertising payload: the flags, the battery service as the only 16-bit service
/// UUID, and the complete local name.
pub open spec fn adv_payload(battery: [u8; 2]) -> Seq<u8> {
    seq![2u8, 1u8, adv_flags()] + seq![3u8, 3u8] + battery@ + seq![
        (NAME.spec_bytes().len() + 1) as u8,
        9u8,
    ] + NAME.spec_bytes()
}

/// The scan response payload: the device information and GATT services as 16-bit
/// UUIDs, then the light service as a 128-bit UUID.
pub open spec fn scan_payload(device_information: [u8; 2], gatt: [u8; 2]) -> Seq<u8> {
    seq![5u8, 3u8] + device_information@ + gatt@ + seq![17u8, 7u8] + u128_le_bytes(BLE_SELF_UUID)
}

proof fn lemma_flatten_one<A>(a: Seq<A>)
    ensures
        seq![a].flatten() == a,
{
    seq![a].lemma_flatten_one_element();
}

proof fn lemma_flatten_two<A>(a: Seq<A>, b: Seq<A>)
    ensures
        seq![a, b].flatten() == a + b,
{
    assert(seq![a, b].drop_first() =~= seq![b]);
    lemma_flatten_one(b);
}

proof fn lemma_fields_bytes_two(a: AdField, b: AdField)
    ensures
        fields_bytes(seq![a, b]) == field_bytes(a) + field_bytes(b),
{
    assert(seq![a, b].drop_first() =~= seq![b]);
    assert(seq![b].drop_first() =~= Seq::<AdField>::empty());
    assert(fields_bytes(Seq::<AdField>::empty()) == Seq::<u8>::empty());
    assert(fields_bytes(seq![b]) =~= field_bytes(b));
}

proof fn lemma_fields_bytes_three(a: AdField, b: AdField, c: AdField)
    ensures
        fields_bytes(seq![a, b, c]) == field_bytes(a) + field_bytes(b) + field_bytes(c),
{
    assert(seq![a, b, c].drop_first() =~= seq![b, c]);
    lemma_fields_bytes_two(b, c);
    assert(field_bytes(a) + (field_bytes(b) + field_bytes(c)) =~= field_bytes(a) + field_bytes(
        b,
    ) + field_bytes(c));
}

/// The name is ten ASCII bytes.
pub proof fn lemma_name_bytes()
    ensures
        NAME.spec_bytes().len() == 10,
{
    broadcast use vstd::string::group_string_axioms;

    reveal_strlit("SleepLight");
    assert(vstd::string::is_ascii(NAME));
}

/// Builds the advertising payload and the scan response payload from the little-endian
/// bytes of the battery, device information and GATT service UUIDs. Both always fit in
/// a legacy advertising payload.
pub fn advertisement_payloads(battery: [u8; 2], device_information: [u8; 2], gatt: [u8; 2]) -> (r:
    Result<(Vec<u8>, Vec<u8>), AdvertiseError>)
    ensures
        r is Ok,
        r matches Ok((adv, scan)) ==> adv@ == adv_payload(battery) && scan@ == scan_payload(
            device_information,
            gatt,
        ),
{
    proof {
        lemma_name_bytes();
    }
    let flags = LE_GENERAL_DISCOVERABLE | BR_EDR_NOT_SUPPORTED;
    let mut battery_uuids: Vec<[u8; 2]> = Vec::new();
    battery_uuids.push(battery);
    let name = vstd::slice::slice_to_vec(NAME.as_bytes());
    let mut adv_fields: Vec<AdField> = Vec::new();
    adv_fields.push(AdField::Flags(flags));
    adv_fields.push(AdField::ServiceUuids16(battery_uuids));
    adv_fields.push(AdField::CompleteLocalName(name));
    proof {
        lemma_fields_bytes_three(adv_fields@[0], adv_fields@[1], adv_fields@[2]);
        assert(adv_fields@ =~= seq![adv_fields@[0], adv_fields@[1], adv_fields@[2]]);
        assert(battery_uuids@.map_values(|u: [u8; 2]| u@) =~= seq![battery@]);
        lemma_flatten_one(battery@);
        assert(fields_bytes(adv_fields@) =~= adv_payload(battery));
    }
    let adv = match encode_ad_fields(&adv_fields, MAX_AD_LEN) {
        Ok(bytes) => bytes,
        Err(_) => {
            return Err(AdvertiseError::InsufficientSpace);
        },
    };
    let mut service_uuids: Vec<[u8; 2]> = Vec::new();
    service_uuids.push(device_information);
    service_uuids.push(gatt);
    let mut own_uuids: Vec<[u8; 16]> = Vec::new();
    let own = u128_to_le_bytes(BLE_SELF_UUID);
    own_uuids.push(own);
    let mut scan_fields: Vec<AdField> = Vec::new();
    scan_fields.push(AdField::ServiceUuids16(service_uuids));
    scan_fields.push(AdField::ServiceUuids128(own_uuids));
    proof {
        lemma_fields_bytes_two(scan_fields@[0], scan_fields@[1]);
        assert(scan_fields@ =~= seq![scan_fields@[0], scan_fields@[1]]);
        assert(service_uuids@.map_values(|u: [u8; 2]| u@) =~= seq![
            device_information@,
            gatt@,
        ]);
        lemma_flatten_two(device_information@, gatt@);
        assert(own_uuids@.map_values(|u: [u8; 16]| u@) =~= seq![own@]);
        lemma_flatten_one(own@);
        assert(fields_bytes(scan_fields@) =~= scan_payload(device_information, gatt));
    }
    let scan = match encode_ad_fields(&scan_fields, MAX_AD_LEN) {
        Ok(bytes) => bytes,
        Err(_) => {
            return Err(AdvertiseError::InsufficientSpace);
        },
    };
    Ok((adv, scan))
}

/// The value of four bytes read in the given byte order.
pub open spec fn u32_in_order(order: Endian, bytes: Seq<u8>) -> u32 {
    match order {
        Endian::Little => le_value(bytes),
        Endian::Big => be_value(bytes),
    }
}

/// Calls `<u32 as FromGatt>::from_gatt`: it accepts exactly four bytes and reads them
/// as a `u32` in the byte order of the machine it runs on (an unaligned read).
#[verifier::external_body]
fn u32_from_gatt(data: &[u8]) -> (r: Result<u32, FromGattError>)
    ensures
        r is Ok <==> data@.len() == 4,
        r matches Ok(v) ==> v == u32_in_order(endianness(), data@),
{
    <u32 as FromGatt>::from_gatt(data)
}

/// The light state a write of `data` to the state characteristic sets: ATT carries the
/// `u32` little-endian, and `LightState::from_ble_u32` decodes that value.
pub open spec fn written_state(data: Seq<u8>) -> LightState {
    LightState(be_value(le_bytes(le_value(data))))
}

/// The value of four bytes, least significant first.
fn u32_from_le_slice(data: &[u8]) -> (v: u32)
    requires
        data@.len() == 4,
    ensures
        v == le_value(data@),
{
    let b0 = data[0];
    let b1 = data[1];
    let b2 = data[2];
    let b3 = data[3];
    let v: u32 = (b3 as u32) << 24u32 | (b2 as u32) << 16u32 | (b1 as u32) << 8u32 | b0 as u32;
    assert(v == packed(b3, b2, b1, b0)) by (bit_vector)
        requires
            v == (b3 as u32) << 24u32 | (b2 as u32) << 16u32 | (b1 as u32) << 8u32 | b0 as u32,
    ;
    v
}

/// What happened on a GATT connection.
pub enum ConnEvent {
    /// The central disconnected.
    Disconnected,
    /// The central wrote `data` to the attribute with `handle`.
    Write { handle: u16, data: Vec<u8> },
    /// Any other GATT request (a read, another request, or one that was not allowed).
    Request,
    /// A link-layer update (PHY, connection parameters, data length, ...).
    LinkUpdate,
}

/// What to do after an event.
pub enum ConnAction {
    /// Stop handling the connection: it is gone.
    Close,
    /// Accept the request and send the reply.
    Reply,
    /// The ring now shows `state`: write `frame` to it, then accept the request and
    /// send the reply.
    ShowAndReply { state: LightState, frame: Vec<Rgb8> },
    /// Nothing to do.
    Ignore,
}

/// Handles one connection event. A write to the light state characteristic
/// (`state_handle`) decodes its four bytes and shows the state on the ring; every GATT
/// request is answered; a disconnection ends the connection.
pub fn handle_conn_event(ring: &mut LightRing, state_handle: u16, event: &ConnEvent) -> (action:
    ConnAction)
    requires
        event matches ConnEvent::Write { handle, data } ==> (handle == state_handle ==> data@.len()
            == 4),
    ensures
        match *event {
            ConnEvent::Disconnected => action is Close && *final(ring) == *old(ring),
            ConnEvent::Write { handle, data } => if handle == state_handle {
                &&& final(ring).shown() == Some(written_state(data@).color())
                &&& final(ring).level() == written_state(data@).level()
                &&& action matches ConnAction::ShowAndReply { state, frame }
                &&& state == written_state(data@)
                &&& state.0 == (data@[0] * 0x100_0000 + data@[1] * 0x1_0000 + data@[2] * 0x100
                    + data@[3]) as u32
                &&& frame@ == final(ring).frame()
            } else {
                action is Reply && *final(ring) == *old(ring)
            },
            ConnEvent::Request => action is Reply && *final(ring) == *old(ring),
            ConnEvent::LinkUpdate => action is Ignore && *final(ring) == *old(ring),
        },
{
    match event {
        ConnEvent::Disconnected => ConnAction::Close,
        ConnEvent::Write { handle, data } => {
            if *handle == state_handle {
                // `from_gatt` accepts the write as a `u32` exactly when it has four bytes;
                // the value itself is decoded here, little-endian, as ATT carries it.
                match u32_from_gatt(data.as_slice()) {
                    Ok(_) => {
                        let value = u32_from_le_slice(data.as_slice());
                        proof {
                            lemma_written_state_is_payload(data@);
                        }
                        let state = LightState::from_ble_u32(value);
                        let frame = ring.set(state);
                        ConnAction::ShowAndReply { state, frame }
                    },
                    Err(_) => ConnAction::Reply,
                }
            } else {
                ConnAction::Reply
            }
        },
        ConnEvent::Request => ConnAction::Reply,
        ConnEvent::LinkUpdate => ConnAction::Ignore,
    }
}

/// The light state characteristic carries `[R, G, B, brightness]`: writing those four
/// bytes sets the state whose packed word is `R`, `G`, `B`, brightness from the top
/// byte down, so it shows colour `(R, G, B)` at brightness `min(brightness, 50)`.
pub proof fn lemma_written_state_is_payload(data: Seq<u8>)
    requires
        data.len() == 4,
    ensures
        written_state(data).0 == (data[0] * 0x100_0000 + data[1] * 0x1_0000 + data[2] * 0x100
            + data[3]) as u32,
        written_state(data).color() == (Rgb8 { r: data[0], g: data[1], b: data[2] }),
        written_state(data).level() == min(data[3] as int, 50),
{
    lemma_le_bytes_of_le_value(data);
    lemma_ble_payload_decodes_to_channels(data);
    lemma_level_is_min(written_state(data).0);
}

/// On a little-endian machine such as the ESP32-C3, writing `[R, G, B, brightness]`
/// shows colour `(R, G, B)` at the capped brightness.
pub proof fn lemma_written_bytes_are_shown(data: Seq<u8>)
    requires
        data.len() == 4,
        endianness() is Little,
    ensures
        written_state(data).color() == (Rgb8 { r: data[0], g: data[1], b: data[2] }),
        written_state(data).level() == capped(data[3]),
{
    lemma_ble_payload_decodes_to_channels(data);
}

} // verus!
