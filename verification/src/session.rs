//! Session identity: a 128-bit value minted once per logical connection
//! handle and carried on every forwarded call, plus its 16-byte wire form.

use vstd::prelude::*;

verus! {

/// Relies on `uuid::Uuid::new_v4` and `uuid::Uuid::as_u128`: a freshly
/// generated random 128-bit identifier. Nothing is promised of its value.
#[verifier::external_body]
pub(crate) fn mint_session_id() -> u128 {
    uuid::Uuid::new_v4().as_u128()
}

/// The identifier a 16-byte wire form stands for: the bytes read as one
/// big-endian 128-bit value.
pub open spec fn sid_of_bytes(b: Seq<u8>) -> u128
    recommends
        b.len() == 16,
{
    ((b[0] as u128) << 120u128) | ((b[1] as u128) << 112u128) | ((b[2] as u128) << 104u128) | ((
    b[3] as u128) << 96u128) | ((b[4] as u128) << 88u128) | ((b[5] as u128) << 80u128) | ((
    b[6] as u128) << 72u128) | ((b[7] as u128) << 64u128) | ((b[8] as u128) << 56u128) | ((
    b[9] as u128) << 48u128) | ((b[10] as u128) << 40u128) | ((b[11] as u128) << 32u128) | ((
    b[12] as u128) << 24u128) | ((b[13] as u128) << 16u128) | ((b[14] as u128) << 8u128) | (
    b[15] as u128)
}

/// Encode a session identifier into its 16-byte big-endian wire form.
/// Decoding the result yields the identifier again.
pub fn session_id_to_bytes(id: u128) -> (r: Vec<u8>)
    ensures
        r@.len() == 16,
        sid_of_bytes(r@) == id,
{
    let mut r: Vec<u8> = Vec::new();
    r.push((id >> 120u128) as u8);
    r.push((id >> 112u128) as u8);
    r.push((id >> 104u128) as u8);
    r.push((id >> 96u128) as u8);
    r.push((id >> 88u128) as u8);
    r.push((id >> 80u128) as u8);
    r.push((id >> 72u128) as u8);
    r.push((id >> 64u128) as u8);
    r.push((id >> 56u128) as u8);
    r.push((id >> 48u128) as u8);
    r.push((id >> 40u128) as u8);
    r.push((id >> 32u128) as u8);
    r.push((id >> 24u128) as u8);
    r.push((id >> 16u128) as u8);
    r.push((id >> 8u128) as u8);
    r.push(id as u8);
    proof {
        assert((((((id >> 120u128) as u8) as u128) << 120u128) | ((((id >> 112u128) as u8) as u128)
            << 112u128) | ((((id >> 104u128) as u8) as u128) << 104u128) | ((((id
            >> 96u128) as u8) as u128) << 96u128) | ((((id >> 88u128) as u8) as u128) << 88u128) | (
        (((id >> 80u128) as u8) as u128) << 80u128) | ((((id >> 72u128) as u8) as u128) << 72u128)
            | ((((id >> 64u128) as u8) as u128) << 64u128) | ((((id >> 56u128) as u8) as u128)
            << 56u128) | ((((id >> 48u128) as u8) as u128) << 48u128) | ((((id
            >> 40u128) as u8) as u128) << 40u128) | ((((id >> 32u128) as u8) as u128) << 32u128) | (
        (((id >> 24u128) as u8) as u128) << 24u128) | ((((id >> 16u128) as u8) as u128) << 16u128)
            | ((((id >> 8u128) as u8) as u128) << 8u128) | ((id as u8) as u128)) == id)
            by (bit_vector);
    }
    r
}

/// Decode a 16-byte wire form back into the session identifier; any other
/// length is rejected.
pub fn session_id_from_bytes(b: &Vec<u8>) -> (r: Option<u128>)
    ensures
        b@.len() == 16 ==> r == Some(sid_of_bytes(b@)),
        b@.len() != 16 ==> r is None,
{
    if b.len() != 16 {
        return None;
    }
    let id: u128 = (((b[0] as u128) << 120u128) | ((b[1] as u128) << 112u128) | ((b[2] as u128)
        << 104u128) | ((b[3] as u128) << 96u128) | ((b[4] as u128) << 88u128) | ((b[5] as u128)
        << 80u128) | ((b[6] as u128) << 72u128) | ((b[7] as u128) << 64u128) | ((b[8] as u128)
        << 56u128) | ((b[9] as u128) << 48u128) | ((b[10] as u128) << 40u128) | ((b[11] as u128)
        << 32u128) | ((b[12] as u128) << 24u128) | ((b[13] as u128) << 16u128) | ((b[14] as u128)
        << 8u128) | (b[15] as u128));
    Some(id)
}

} // verus!
