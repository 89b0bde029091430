//! Layout of the flash sector that persists the configuration: a 20-byte
//! header (magic, version, lengths, checksum), the encoded firmware identity
//! and the encoded configuration payload.
use vstd::prelude::*;

use vstd::arithmetic::div_mod::{lemma_mod_adds, lemma_small_mod};
use vstd::slice::slice_to_vec;

verus! {

/// Version of the sector layout; a sector written by another version is
/// ignored.
pub const CONFIG_VERSION: u8 = 3;

/// Flash address of the configuration sector.
pub const CONFIG_OFFSET: u32 = 0x9000;

/// Size of the configuration sector in bytes.
pub const CONFIG_SECTOR_SIZE: usize = 4096;

/// Size of the sector header in bytes.
pub const HEADER_SIZE: usize = 20;

/// Room for the identity and the payload together.
pub const PAYLOAD_MAX_SIZE: usize = CONFIG_SECTOR_SIZE - HEADER_SIZE;

/// The four bytes that open a configuration sector: ASCII "RWCF".
pub open spec fn config_magic() -> Seq<u8> {
    seq![0x52u8, 0x57u8, 0x43u8, 0x46u8]
}

/// The sum of all bytes, as a natural number.
pub open spec fn byte_sum(bytes: Seq<u8>) -> nat
    decreases bytes.len(),
{
    if bytes.len() == 0 {
        0
    } else {
        byte_sum(bytes.drop_last()) + bytes.last() as nat
    }
}

/// The payload checksum: the sum of all bytes modulo 2^32.
pub open spec fn checksum_of(bytes: Seq<u8>) -> u32 {
    (byte_sum(bytes) % 0x1_0000_0000) as u32
}

/// The little-endian value of the first four bytes.
pub open spec fn le_u32(bytes: Seq<u8>) -> u32 {
    (bytes[0] as int + 0x100 * bytes[1] as int + 0x1_0000 * bytes[2] as int + 0x100_0000
        * bytes[3] as int) as u32
}

/// The four little-endian bytes of `value`.
pub open spec fn u32_le_bytes(value: u32) -> Seq<u8> {
    seq![
        (value as int % 0x100) as u8,
        (value as int / 0x100 % 0x100) as u8,
        (value as int / 0x1_0000 % 0x100) as u8,
        (value as int / 0x100_0000) as u8,
    ]
}

/// What the sector header records.
#[derive(Clone, Copy, Debug, PartialEq, Eq, Structural)]
pub struct ConfigHeader {
    pub identity_len: usize,
    pub payload_len: usize,
    pub payload_checksum: u32,
}

/// The header of `sector`, where it opens with the magic and the current
/// version and records non-empty identity and payload lengths that fit the
/// sector together; `None` otherwise.
pub open spec fn header_of(sector: Seq<u8>) -> Option<ConfigHeader> {
    let identity_len = le_u32(sector.subrange(8, 12));
    let payload_len = le_u32(sector.subrange(12, 16));
    if sector.subrange(0, 4) != config_magic() || sector[4] != CONFIG_VERSION {
        None
    } else if identity_len == 0 || payload_len == 0 || identity_len + payload_len
        > PAYLOAD_MAX_SIZE {
        None
    } else {
        Some(
            ConfigHeader {
                identity_len: identity_len as usize,
                payload_len: payload_len as usize,
                payload_checksum: le_u32(sector.subrange(16, 20)),
            },
        )
    }
}

/// The payload stored in `sector`, where the header is valid, the stored
/// identity equals `expected_identity` and the payload matches its checksum;
/// `None` otherwise.
pub open spec fn payload_of(sector: Seq<u8>, expected_identity: Seq<u8>) -> Option<Seq<u8>> {
    match header_of(sector) {
        None => None,
        Some(header) => {
            let id_end = HEADER_SIZE + header.identity_len;
            let payload = sector.subrange(id_end, id_end + header.payload_len);
            if sector.subrange(HEADER_SIZE as int, id_end) != expected_identity {
                None
            } else if checksum_of(payload) != header.payload_checksum {
                None
            } else {
                Some(payload)
            }
        },
    }
}

/// Byte `i` of the sector that stores `payload` for `identity`: magic,
/// version, three zero bytes, identity length, payload length and payload
/// checksum (little-endian `u32`s), the identity, the payload, then zeros.
pub open spec fn sector_byte(identity: Seq<u8>, payload: Seq<u8>, i: int) -> u8 {
    let id_end = HEADER_SIZE + identity.len();
    if i < 4 {
        config_magic()[i]
    } else if i == 4 {
        CONFIG_VERSION
    } else if i < 8 {
        0
    } else if i < 12 {
        u32_le_bytes(identity.len() as u32)[i - 8]
    } else if i < 16 {
        u32_le_bytes(payload.len() as u32)[i - 12]
    } else if i < HEADER_SIZE {
        u32_le_bytes(checksum_of(payload))[i - 16]
    } else if i < id_end {
        identity[i - HEADER_SIZE]
    } else if i < id_end + payload.len() {
        payload[i - id_end]
    } else {
        0
    }
}

/// The whole sector that stores `payload` for `identity`.
pub open spec fn config_sector(identity: Seq<u8>, payload: Seq<u8>) -> Seq<u8> {
    Seq::new(CONFIG_SECTOR_SIZE as nat, |i: int| sector_byte(identity, payload, i))
}

/// Why a sector could not be built.
#[derive(Clone, Copy, Debug, PartialEq, Eq, Structural)]
pub enum SectorError {
    /// The identity and the payload together do not fit after the header.
    SectorFull,
}

proof fn lemma_byte_sum_step(bytes: Seq<u8>, i: int)
    requires
        0 <= i < bytes.len(),
    ensures
        byte_sum(bytes.take(i + 1)) == byte_sum(bytes.take(i)) + bytes[i] as nat,
{
    assert(bytes.take(i + 1).drop_last() =~= bytes.take(i));
}

proof fn lemma_wrapping_sum_step(a: nat, b: u8)
    ensures
        vstd::wrapping::u32_specs::wrapping_add((a % 0x1_0000_0000) as u32, b as u32) == ((a
            + b as nat) % 0x1_0000_0000) as u32,
{
    let m: int = 0x1_0000_0000;
    lemma_mod_adds(a as int, b as int, m);
    lemma_small_mod(b as nat, m as nat);
    let x: int = a as int % m;
    let r: int = (a as int + b as int) % m;
    let q: int = (x + b as int) / m;
    assert(0 <= x < m);
    assert(0 <= r < m);
    assert(x + b as int == r + m * q);
    assert(q == 0 || q == 1) by (nonlinear_arith)
        requires
            0 <= x < m,
            0 <= b < 256,
            0 <= r < m,
            x + b == r + m * q,
            m == 0x1_0000_0000,
    ;
    if q == 0 {
        assert(x + b as int == r);
    } else {
        assert(x + b as int - m == r);
    }
}

/// The wrapping byte sum used to protect the stored payload.
pub fn checksum(bytes: &[u8]) -> (sum: u32)
    ensures
        sum == checksum_of(bytes@),
{
    let mut accumulator: u32 = 0;
    let mut i: usize = 0;
    while i < bytes.len()
        invariant
            i <= bytes@.len(),
            accumulator == checksum_of(bytes@.take(i as int)),
        decreases bytes@.len() - i,
    {
        proof {
            lemma_byte_sum_step(bytes@, i as int);
            lemma_wrapping_sum_step(byte_sum(bytes@.take(i as int)), bytes@[i as int]);
        }
        accumulator = accumulator.wrapping_add(bytes[i] as u32);
        i += 1;
    }
    assert(bytes@.take(bytes@.len() as int) =~= bytes@);
    accumulator
}

/// The little-endian `u32` in the first four bytes.
pub fn read_u32_le(bytes: &[u8]) -> (value: u32)
    requires
        bytes@.len() >= 4,
    ensures
        value == le_u32(bytes@),
{
    bytes[0] as u32 + 0x100 * (bytes[1] as u32) + 0x1_0000 * (bytes[2] as u32) + 0x100_0000
        * (bytes[3] as u32)
}

/// Stores `value` as four little-endian bytes.
pub fn write_u32_le(bytes: &mut [u8], value: u32)
    requires
        old(bytes)@.len() == 4,
    ensures
        final(bytes)@ == u32_le_bytes(value),
{
    bytes[0] = (value % 0x100) as u8;
    bytes[1] = (value / 0x100 % 0x100) as u8;
    bytes[2] = (value / 0x1_0000 % 0x100) as u8;
    bytes[3] = (value / 0x100_0000) as u8;
    assert(bytes@ =~= u32_le_bytes(value));
}

/// Whether two byte strings are equal.
fn bytes_equal(a: &[u8], b: &[u8]) -> (equal: bool)
    ensures
        equal == (a@ == b@),
{
    if a.len() != b.len() {
        return false;
    }
    let mut i: usize = 0;
    while i < a.len()
        invariant
            i <= a@.len(),
            a@.len() == b@.len(),
            forall|k: int| 0 <= k < i ==> a@[k] == b@[k],
        decreases a@.len() - i,
    {
        if a[i] != b[i] {
            return false;
        }
        i += 1;
    }
    assert(a@ =~= b@);
    true
}

/// The header of a configuration sector, if the sector holds a valid one.
pub fn read_config_header(sector: &[u8; CONFIG_SECTOR_SIZE]) -> (header: Option<ConfigHeader>)
    ensures
        header == header_of(sector@),
{
    if sector[0] != 0x52 || sector[1] != 0x57 || sector[2] != 0x43 || sector[3] != 0x46 {
        assert(sector@.subrange(0, 4) != config_magic()) by {
            if sector@.subrange(0, 4) == config_magic() {
                assert(sector@.subrange(0, 4)[0] == sector@[0]);
                assert(sector@.subrange(0, 4)[1] == sector@[1]);
                assert(sector@.subrange(0, 4)[2] == sector@[2]);
                assert(sector@.subrange(0, 4)[3] == sector@[3]);
            }
        }
        return None;
    }
    assert(sector@.subrange(0, 4) =~= config_magic());
    if sector[4] != CONFIG_VERSION {
        return None;
    }
    let identity_len = read_u32_le(&sector[8..12]);
    let payload_len = read_u32_le(&sector[12..16]);
    let payload_checksum = read_u32_le(&sector[16..20]);
    if identity_len == 0 || payload_len == 0 || identity_len as u64 + payload_len as u64
        > PAYLOAD_MAX_SIZE as u64 {
        return None;
    }
    Some(
        ConfigHeader {
            identity_len: identity_len as usize,
            payload_len: payload_len as usize,
            payload_checksum,
        },
    )
}

/// The configuration payload stored in `sector`, if the sector is valid,
/// belongs to `expected_identity` and its payload matches the checksum.
pub fn decode_config_sector(sector: &[u8; CONFIG_SECTOR_SIZE], expected_identity: &[u8]) -> (payload:
    Option<Vec<u8>>)
    ensures
        match payload {
            None => payload_of(sector@, expected_identity@) is None,
            Some(p) => payload_of(sector@, expected_identity@) == Some(p@),
        },
{
    let header = match read_config_header(sector) {
        None => return None,
        Some(header) => header,
    };
    let id_end = HEADER_SIZE + header.identity_len;
    let payload_end = id_end + header.payload_len;
    let identity = &sector[HEADER_SIZE..id_end];
    if !bytes_equal(identity, expected_identity) {
        return None;
    }
    let payload = &sector[id_end..payload_end];
    if checksum(payload) != header.payload_checksum {
        return None;
    }
    Some(slice_to_vec(payload))
}

/// The sector that stores `payload` (the encoded configuration) for
/// `identity` (the encoded firmware identity); `SectorFull` when the two do
/// not fit after the header together.
pub fn encode_config_sector(identity: &[u8], payload: &[u8]) -> (sector: Result<
    [u8; CONFIG_SECTOR_SIZE],
    SectorError,
>)
    ensures
        sector is Ok <==> identity@.len() + payload@.len() <= PAYLOAD_MAX_SIZE,
        sector matches Ok(s) ==> s@ == config_sector(identity@, payload@),
        sector matches Err(e) ==> e == SectorError::SectorFull,
{
    if identity.len() > PAYLOAD_MAX_SIZE || payload.len() > PAYLOAD_MAX_SIZE - identity.len() {
        return Err(SectorError::SectorFull);
    }
    let ghost id = identity@;
    let ghost pl = payload@;
    let mut sector = [0u8; CONFIG_SECTOR_SIZE];
    sector[0] = 0x52;
    sector[1] = 0x57;
    sector[2] = 0x43;
    sector[3] = 0x46;
    sector[4] = CONFIG_VERSION;
    let mut field = [0u8; 4];
    write_u32_le(&mut field, identity.len() as u32);
    sector[8] = field[0];
    sector[9] = field[1];
    sector[10] = field[2];
    sector[11] = field[3];
    write_u32_le(&mut field, payload.len() as u32);
    sector[12] = field[0];
    sector[13] = field[1];
    sector[14] = field[2];
    sector[15] = field[3];
    write_u32_le(&mut field, checksum(payload));
    sector[16] = field[0];
    sector[17] = field[1];
    sector[18] = field[2];
    sector[19] = field[3];
    assert forall|k: int| 0 <= k < HEADER_SIZE implies #[trigger] sector@[k] == sector_byte(id, pl, k) by {
    }
    let mut i: usize = 0;
    while i < identity.len()
        invariant
            i <= identity@.len(),
            identity@ == id,
            payload@ == pl,
            id.len() + pl.len() <= PAYLOAD_MAX_SIZE,
            sector@.len() == CONFIG_SECTOR_SIZE,
            forall|k: int| 0 <= k < HEADER_SIZE + i ==> #[trigger] sector@[k] == sector_byte(id, pl, k),
            forall|k: int| HEADER_SIZE + i <= k < CONFIG_SECTOR_SIZE ==> #[trigger] sector@[k] == 0,
        decreases identity@.len() - i,
    {
        sector[HEADER_SIZE + i] = identity[i];
        i += 1;
    }
    let id_end = HEADER_SIZE + identity.len();
    let mut j: usize = 0;
    while j < payload.len()
        invariant
            j <= payload@.len(),
            identity@ == id,
            payload@ == pl,
            id.len() + pl.len() <= PAYLOAD_MAX_SIZE,
            id_end == HEADER_SIZE + id.len(),
            sector@.len() == CONFIG_SECTOR_SIZE,
            forall|k: int| 0 <= k < id_end + j ==> #[trigger] sector@[k] == sector_byte(id, pl, k),
            forall|k: int| id_end + j <= k < CONFIG_SECTOR_SIZE ==> #[trigger] sector@[k] == 0,
        decreases payload@.len() - j,
    {
        sector[id_end + j] = payload[j];
        j += 1;
    }
    assert(sector@ =~= config_sector(id, pl));
    Ok(sector)
}

/// Reading back four bytes written for `value` gives `value`.
pub proof fn lemma_u32_le_roundtrip(value: u32)
    ensures
        u32_le_bytes(value).len() == 4,
        le_u32(u32_le_bytes(value)) == value,
{
    let v = value as int;
    assert(v == v % 0x100 + 0x100 * (v / 0x100 % 0x100) + 0x1_0000 * (v / 0x1_0000 % 0x100)
        + 0x100_0000 * (v / 0x100_0000)) by (nonlinear_arith)
        requires
            0 <= v <= u32::MAX,
    ;
}

/// Writing back the value read from four bytes gives the same four bytes.
pub proof fn lemma_u32_le_bytes_roundtrip(bytes: Seq<u8>)
    requires
        bytes.len() == 4,
    ensures
        u32_le_bytes(le_u32(bytes)) == bytes,
{
    let b0 = bytes[0] as int;
    let b1 = bytes[1] as int;
    let b2 = bytes[2] as int;
    let b3 = bytes[3] as int;
    let v = b0 + 0x100 * b1 + 0x1_0000 * b2 + 0x100_0000 * b3;
    assert(v % 0x100 == b0 && v / 0x100 % 0x100 == b1 && v / 0x1_0000 % 0x100 == b2 && v
        / 0x100_0000 == b3) by (nonlinear_arith)
        requires
            0 <= b0 < 256,
            0 <= b1 < 256,
            0 <= b2 < 256,
            0 <= b3 < 256,
            v == b0 + 0x100 * b1 + 0x1_0000 * b2 + 0x100_0000 * b3,
    ;
    assert(u32_le_bytes(le_u32(bytes)) =~= bytes);
}

/// A sector built for `payload` and `identity` holds a valid header that
/// records both lengths and the payload checksum, and loading it back with
/// the same identity gives exactly `payload`: what is saved is what is loaded.
pub proof fn lemma_sector_roundtrip(identity: Seq<u8>, payload: Seq<u8>)
    requires
        0 < identity.len(),
        0 < payload.len(),
        identity.len() + payload.len() <= PAYLOAD_MAX_SIZE,
    ensures
        header_of(config_sector(identity, payload)) == Some(
            ConfigHeader {
                identity_len: identity.len() as usize,
                payload_len: payload.len() as usize,
                payload_checksum: checksum_of(payload),
            },
        ),
        payload_of(config_sector(identity, payload), identity) == Some(payload),
{
    let s = config_sector(identity, payload);
    lemma_u32_le_roundtrip(identity.len() as u32);
    lemma_u32_le_roundtrip(payload.len() as u32);
    lemma_u32_le_roundtrip(checksum_of(payload));
    assert(s.subrange(0, 4) =~= config_magic());
    assert(s.subrange(8, 12) =~= u32_le_bytes(identity.len() as u32));
    assert(s.subrange(12, 16) =~= u32_le_bytes(payload.len() as u32));
    assert(s.subrange(16, 20) =~= u32_le_bytes(checksum_of(payload)));
    let id_end = HEADER_SIZE + identity.len();
    assert(s.subrange(HEADER_SIZE as int, id_end as int) =~= identity);
    assert(s.subrange(id_end as int, id_end + payload.len()) =~= payload);
}

/// A sector built with an empty identity or an empty payload records a zero
/// length, so it never loads: together with `lemma_sector_roundtrip`, a saved
/// payload loads back exactly when neither part is empty.
pub proof fn lemma_empty_contents_not_loaded(identity: Seq<u8>, payload: Seq<u8>)
    requires
        identity.len() + payload.len() <= PAYLOAD_MAX_SIZE,
        identity.len() == 0 || payload.len() == 0,
    ensures
        header_of(config_sector(identity, payload)) is None,
        payload_of(config_sector(identity, payload), identity) is None,
{
    let s = config_sector(identity, payload);
    lemma_u32_le_roundtrip(identity.len() as u32);
    lemma_u32_le_roundtrip(payload.len() as u32);
    assert(s.subrange(8, 12) =~= u32_le_bytes(identity.len() as u32));
    assert(s.subrange(12, 16) =~= u32_le_bytes(payload.len() as u32));
}

/// A sector saved under one firmware identity is ignored when loaded with a
/// different one.
pub proof fn lemma_sector_rejects_other_identity(
    identity: Seq<u8>,
    payload: Seq<u8>,
    other: Seq<u8>,
)
    requires
        0 < identity.len(),
        0 < payload.len(),
        identity.len() + payload.len() <= PAYLOAD_MAX_SIZE,
        other != identity,
    ensures
        payload_of(config_sector(identity, payload), other) is None,
{
    lemma_sector_roundtrip(identity, payload);
    let s = config_sector(identity, payload);
    let id_end = HEADER_SIZE + identity.len();
    assert(s.subrange(HEADER_SIZE as int, id_end as int) =~= identity);
}

proof fn lemma_byte_sum_update(bytes: Seq<u8>, i: int, byte: u8)
    requires
        0 <= i < bytes.len(),
    ensures
        byte_sum(bytes.update(i, byte)) + bytes[i] as nat == byte_sum(bytes) + byte as nat,
    decreases bytes.len(),
{
    let updated = bytes.update(i, byte);
    if i == bytes.len() - 1 {
        assert(updated.drop_last() =~= bytes.drop_last());
    } else {
        assert(updated.drop_last() =~= bytes.drop_last().update(i, byte));
        lemma_byte_sum_update(bytes.drop_last(), i, byte);
    }
}

/// Changing any single byte of a payload changes its checksum, so a stored
/// payload with one corrupted byte is always detected.
pub proof fn lemma_checksum_detects_byte_change(bytes: Seq<u8>, i: int, byte: u8)
    requires
        0 <= i < bytes.len(),
        byte != bytes[i],
    ensures
        checksum_of(bytes.update(i, byte)) != checksum_of(bytes),
{
    lemma_byte_sum_update(bytes, i, byte);
    let a = byte_sum(bytes) as int;
    let c = byte_sum(bytes.update(i, byte)) as int;
    let m: int = 0x1_0000_0000;
    assert(c - a == byte as int - bytes[i] as int);
    assert(c % m != a % m) by (nonlinear_arith)
        requires
            c - a == byte as int - bytes[i] as int,
            byte != bytes[i],
            0 <= byte < 256,
            0 <= bytes[i] < 256,
            0 <= a,
            0 <= c,
            m == 0x1_0000_0000,
    ;
}

/// A saved sector whose payload has one byte changed no longer loads: the
/// checksum in its header rejects it.
pub proof fn lemma_corrupted_payload_rejected(
    identity: Seq<u8>,
    payload: Seq<u8>,
    i: int,
    byte: u8,
)
    requires
        0 < identity.len(),
        0 < payload.len(),
        identity.len() + payload.len() <= PAYLOAD_MAX_SIZE,
        0 <= i < payload.len(),
        byte != payload[i],
    ensures
        payload_of(
            config_sector(identity, payload).update(HEADER_SIZE + identity.len() + i, byte),
            identity,
        ) is None,
{
    lemma_sector_roundtrip(identity, payload);
    let s = config_sector(identity, payload);
    let pos = HEADER_SIZE + identity.len() + i;
    let t = s.update(pos, byte);
    let id_end = HEADER_SIZE + identity.len();
    assert(t.subrange(0, 4) =~= s.subrange(0, 4));
    assert(t.subrange(8, 12) =~= s.subrange(8, 12));
    assert(t.subrange(12, 16) =~= s.subrange(12, 16));
    assert(t.subrange(16, 20) =~= s.subrange(16, 20));
    assert(header_of(t) == header_of(s));
    assert(s.subrange(id_end as int, id_end + payload.len()) =~= payload);
    assert(t.subrange(id_end as int, id_end + payload.len()) =~= payload.update(i, byte));
    lemma_checksum_detects_byte_change(payload, i, byte);
}

} // verus!
