//! QUIC Initial packet generation.

use rand::rngs::ThreadRng;
use rand::RngCore;
use vstd::prelude::*;

verus! {

/// The length every generated packet is padded to.
pub const TARGET_LENGTH: usize = 1200;

/// Length of the destination connection ID.
pub const DEST_CONN_ID_LEN: usize = 10;

/// Length of the source connection ID.
pub const SRC_CONN_ID_LEN: usize = 4;

#[verifier::external_type_specification]
#[verifier::external_body]
pub struct ExThreadRng(ThreadRng);

/// Calls `rand::rng`, the thread-local random generator. Nothing is
/// claimed of it.
#[verifier::external_body]
fn thread_rng() -> ThreadRng {
    rand::rng()
}

/// Calls `RngCore::fill_bytes` of the thread-local generator on the whole
/// of `buf`. Claimed: the length of `buf` is unchanged; its new bytes are
/// random and nothing is claimed of them.
#[verifier::external_body]
fn fill_random(rng: &mut ThreadRng, buf: &mut Vec<u8>)
    ensures
        final(buf)@.len() == old(buf)@.len(),
{
    rng.fill_bytes(buf.as_mut_slice())
}

/// The first five bytes: long-header form byte and the version field.
pub open spec fn quic_prefix() -> Seq<u8> {
    seq![0xCAu8, 0xFFu8, 0xFFu8, 0xFFu8, 0xFFu8]
}

/// An Initial packet with the given connection IDs: the prefix, each ID
/// preceded by its length, then zeroes up to [`TARGET_LENGTH`] bytes.
pub open spec fn quic_initial_packet(dest_conn_id: Seq<u8>, src_conn_id: Seq<u8>) -> Seq<u8> {
    let head = quic_prefix() + seq![DEST_CONN_ID_LEN as u8] + dest_conn_id + seq![
        SRC_CONN_ID_LEN as u8,
    ] + src_conn_id;
    head + Seq::new((TARGET_LENGTH - head.len()) as nat, |i: int| 0u8)
}

/// Builds the Initial packet for the given connection IDs.
pub fn build_quic_initial_packet(dest_conn_id: &Vec<u8>, src_conn_id: &Vec<u8>) -> (r: Vec<u8>)
    requires
        dest_conn_id@.len() == DEST_CONN_ID_LEN,
        src_conn_id@.len() == SRC_CONN_ID_LEN,
    ensures
        r@ == quic_initial_packet(dest_conn_id@, src_conn_id@),
        r@.len() == TARGET_LENGTH,
{
    let mut packet: Vec<u8> = Vec::with_capacity(TARGET_LENGTH);
    packet.push(0xCA);
    packet.push(0xFF);
    packet.push(0xFF);
    packet.push(0xFF);
    packet.push(0xFF);
    packet.push(DEST_CONN_ID_LEN as u8);
    let mut i: usize = 0;
    while i < dest_conn_id.len()
        invariant
            0 <= i <= dest_conn_id@.len(),
            packet@ == quic_prefix() + seq![DEST_CONN_ID_LEN as u8] + dest_conn_id@.take(i as int),
        decreases dest_conn_id@.len() - i,
    {
        packet.push(dest_conn_id[i]);
        i = i + 1;
        assert(dest_conn_id@.take(i as int) =~= dest_conn_id@.take(i - 1).push(dest_conn_id@[i - 1]));
    }
    assert(dest_conn_id@.take(i as int) =~= dest_conn_id@);
    packet.push(SRC_CONN_ID_LEN as u8);
    let ghost mid = packet@;
    let mut j: usize = 0;
    while j < src_conn_id.len()
        invariant
            0 <= j <= src_conn_id@.len(),
            packet@ == mid + src_conn_id@.take(j as int),
        decreases src_conn_id@.len() - j,
    {
        packet.push(src_conn_id[j]);
        j = j + 1;
        assert(src_conn_id@.take(j as int) =~= src_conn_id@.take(j - 1).push(src_conn_id@[j - 1]));
    }
    assert(src_conn_id@.take(j as int) =~= src_conn_id@);
    let ghost head = packet@;
    assert(head.len() == 21);
    while packet.len() < TARGET_LENGTH
        invariant
            head.len() == 21,
            21 <= packet@.len() <= TARGET_LENGTH,
            packet@ == head + Seq::new((packet@.len() - 21) as nat, |i: int| 0u8),
        decreases TARGET_LENGTH - packet.len(),
    {
        packet.push(0);
        assert(packet@ =~= head + Seq::new((packet@.len() - 21) as nat, |i: int| 0u8));
    }
    assert(packet@ =~= quic_initial_packet(dest_conn_id@, src_conn_id@));
    packet
}

/// Generates a randomised QUIC Initial packet padded to 1,200 bytes.
pub fn generate_quic_initial_packet() -> (r: Vec<u8>)
    ensures
        exists|dcid: Seq<u8>, scid: Seq<u8>|
            dcid.len() == DEST_CONN_ID_LEN && scid.len() == SRC_CONN_ID_LEN && r@
                == quic_initial_packet(dcid, scid),
        r@.len() == TARGET_LENGTH,
{
    let mut rng = thread_rng();
    let mut dest_conn_id: Vec<u8> = vec![0u8; DEST_CONN_ID_LEN];
    fill_random(&mut rng, &mut dest_conn_id);
    let mut src_conn_id: Vec<u8> = vec![0u8; SRC_CONN_ID_LEN];
    fill_random(&mut rng, &mut src_conn_id);
    build_quic_initial_packet(&dest_conn_id, &src_conn_id)
}

} // verus!
