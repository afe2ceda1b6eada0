//! M-sequence telegrams: a master message and the device message that
//! answers it, each of a size fixed by the M-sequence type.

use vstd::prelude::*;
use crate::master::dl::message_handler::m_sequences::annex_a::{
    calculate_checksum, checksum, ckt, create_ckt_without_checksum, create_mc, fold,
    lemma_checksum_in_ckt, mc, M_Sequence_Type, MAX_ADDRESS,
};
pub use crate::master::dl::message_handler::m_sequences::annex_a::{CommunicationChannel, RW};

pub mod annex_a;

verus! {

/// One M-sequence: `M` octets from the master, `D` octets from the device.
#[allow(non_camel_case_types)]
pub struct M_Sequence<const SEND_ON_REQUEST_DATA: bool, const M: usize, const D: usize> {
    pub master_message: [u8; M],
    pub device_message: [u8; D],
}

/// The M-sequence of two octets each way that is used during start-up.
#[allow(non_camel_case_types)]
pub type TYPE_0<const SEND_ON_REQUEST_DATA: bool> = M_Sequence<SEND_ON_REQUEST_DATA, 2, 2>;

/// The master message of a TYPE_0 read request: the control octet, then the
/// M-sequence type with the checksum over both octets.
pub open spec fn type_0_read_request(channel: CommunicationChannel, address: u8) -> Seq<u8> {
    let control = mc(RW::ReadAccess, channel, address);
    let plain = ckt(M_Sequence_Type::Type_0);
    seq![control, plain | checksum(seq![control, plain], 2)]
}

impl TYPE_0<false> {
    /// A read request for `address` on `communication_channel`, checksum
    /// filled in, with an empty device message.
    pub fn new(communication_channel: CommunicationChannel, address: u8) -> (sequence: Self)
        requires
            address <= MAX_ADDRESS,
        ensures
            sequence.master_message@ == type_0_read_request(communication_channel, address),
            sequence.device_message@ == seq![0u8, 0u8],
    {
        let mut master_message: [u8; 2] = [
            create_mc(RW::ReadAccess, communication_channel, address),
            create_ckt_without_checksum(M_Sequence_Type::Type_0),
        ];
        calculate_checksum(&mut master_message, 2);
        Self { master_message, device_message: [0;2] }
    }
}

/// A TYPE_0 read request has two octets. The first is the control octet of
/// a read access. The second announces M-sequence type 0 in its top two bits
/// and holds in its other six the checksum over the control octet and the
/// bare type octet.
pub proof fn lemma_type_0_read_request(channel: CommunicationChannel, address: u8)
    ensures
        ({
            let request = type_0_read_request(channel, address);
            let bare = seq![mc(RW::ReadAccess, channel, address), ckt(M_Sequence_Type::Type_0)];
            &&& request.len() == 2
            &&& request[0] == mc(RW::ReadAccess, channel, address)
            &&& request[1] >> 6 == M_Sequence_Type::Type_0.code()
            &&& request[1] & 0b11_1111 == checksum(bare, 2)
        }),
{
    let bare = seq![mc(RW::ReadAccess, channel, address), ckt(M_Sequence_Type::Type_0)];
    lemma_checksum_in_ckt(M_Sequence_Type::Type_0, fold(bare.take(2)));
}

} // verus!
