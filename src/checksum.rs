//! The checksum that closes every wireless output report.
use vstd::prelude::*;

verus! {

/// The byte that precedes a wireless output report in the checksummed buffer.
pub const BT_CRC_PREFIX: u8 = 0xA2;

/// How many leading bytes of a wireless output report the checksum covers.
pub const BT_CRC_COVERED: usize = 74;

/// The CRC-32 (ISO-HDLC, the IEEE polynomial, reflected) of a byte string.
pub uninterp spec fn crc32_iso_hdlc(data: Seq<u8>) -> u32;

/// Relies on crc::Crc::<u32>::checksum with crc::CRC_32_ISO_HDLC: the CRC-32 of
/// the bytes, which depends on the bytes alone.
#[verifier::external_body]
fn crc32(data: &[u8]) -> (r: u32)
    ensures
        r == crc32_iso_hdlc(data@),
{
    crc::Crc::<u32>::new(&crc::CRC_32_ISO_HDLC).checksum(data)
}

/// The four bytes of `x`, least significant first.
pub open spec fn le_bytes(x: u32) -> Seq<u8> {
    seq![
        (x % 0x100) as u8,
        ((x / 0x100) % 0x100) as u8,
        ((x / 0x1_0000) % 0x100) as u8,
        ((x / 0x100_0000) % 0x100) as u8,
    ]
}

/// The buffer that the checksum of a wireless report is taken over.
pub open spec fn bt_crc_input(covered: Seq<u8>) -> Seq<u8> {
    seq![BT_CRC_PREFIX] + covered
}

/// The trailing checksum bytes of a wireless report whose first bytes are `covered`.
pub open spec fn bt_checksum(covered: Seq<u8>) -> Seq<u8> {
    le_bytes(crc32_iso_hdlc(bt_crc_input(covered)))
}

/// Splits a 32-bit value into its bytes, least significant first.
pub fn transform_u32_to_array_of_u8(x: u32) -> (r: [u8; 4])
    ensures
        r@ == le_bytes(x),
{
    let b0: u8 = ((x >> 24u32) & 0xffu32) as u8;
    let b1: u8 = ((x >> 16u32) & 0xffu32) as u8;
    let b2: u8 = ((x >> 8u32) & 0xffu32) as u8;
    let b3: u8 = (x & 0xffu32) as u8;
    assert(b3 == (x % 0x100) as u8) by (bit_vector)
        requires b3 == (x & 0xffu32) as u8;
    assert(b2 == ((x / 0x100) % 0x100) as u8) by (bit_vector)
        requires b2 == ((x >> 8u32) & 0xffu32) as u8;
    assert(b1 == ((x / 0x1_0000) % 0x100) as u8) by (bit_vector)
        requires b1 == ((x >> 16u32) & 0xffu32) as u8;
    assert(b0 == ((x / 0x100_0000) % 0x100) as u8) by (bit_vector)
        requires b0 == ((x >> 24u32) & 0xffu32) as u8;
    let r = [b3, b2, b1, b0];
    assert(r@ =~= le_bytes(x));
    r
}

/// The checksum of a wireless output report: the CRC-32 of the prefix byte
/// followed by the report's first 74 bytes, least significant byte first.
pub fn calculate_checksum_bt(packet: &[u8]) -> (r: [u8; 4])
    requires
        packet@.len() == BT_CRC_COVERED,
    ensures
        r@ == bt_checksum(packet@),
{
    let mut full_packet: Vec<u8> = Vec::with_capacity(BT_CRC_COVERED + 1);
    full_packet.push(BT_CRC_PREFIX);
    let mut i: usize = 0;
    while i < packet.len()
        invariant
            i <= packet@.len(),
            full_packet@ == bt_crc_input(packet@.subrange(0, i as int)),
        decreases packet@.len() - i,
    {
        full_packet.push(packet[i]);
        i = i + 1;
        assert(full_packet@ =~= bt_crc_input(packet@.subrange(0, i as int)));
    }
    assert(packet@.subrange(0, i as int) =~= packet@);
    let crc = crc32(full_packet.as_slice());
    transform_u32_to_array_of_u8(crc)
}

} // verus!
