//! Codings of the M-sequence control octet and of the "checksum / M-sequence
//! type" octet.

use vstd::prelude::*;

verus! {

/// Direction of the access a master message announces.
#[derive(Clone, Copy, Debug, PartialEq, Eq, Structural)]
pub enum RW {
    WriteAccess,
    ReadAccess,
}

/// Communication channel a master message addresses.
#[derive(Clone, Copy, Debug, PartialEq, Eq, Structural)]
pub enum CommunicationChannel {
    Process,
    Page,
    Diagnosis,
    ISDU,
}

/// M-sequence type announced in the two top bits of the second octet.
#[allow(non_camel_case_types)]
#[derive(Clone, Copy, Debug, PartialEq, Eq, Structural)]
pub enum M_Sequence_Type {
    Type_0,
    Type_1,
    Type_2,
}

/// Largest address that fits the five address bits of the control octet.
pub const MAX_ADDRESS: u8 = 0b1_1111;

/// Start value of the checksum fold.
pub const SEED: u8 = 0x52;

impl RW {
    /// The bit that stands for this access direction on the wire.
    pub open spec fn code(self) -> u8 {
        match self {
            RW::WriteAccess => 0,
            RW::ReadAccess => 1,
        }
    }

    /// The bit that stands for this access direction on the wire.
    #[verifier::when_used_as_spec(code)]
    pub fn bit(self) -> (b: u8)
        ensures
            b == self.code(),
    {
        match self {
            RW::WriteAccess => 0,
            RW::ReadAccess => 1,
        }
    }
}

impl CommunicationChannel {
    /// The two-bit number of this channel on the wire.
    pub open spec fn code(self) -> u8 {
        match self {
            CommunicationChannel::Process => 0,
            CommunicationChannel::Page => 1,
            CommunicationChannel::Diagnosis => 2,
            CommunicationChannel::ISDU => 3,
        }
    }

    /// The two-bit number of this channel on the wire.
    pub fn bits(self) -> (b: u8)
        ensures
            b == self.code(),
    {
        match self {
            CommunicationChannel::Process => 0,
            CommunicationChannel::Page => 1,
            CommunicationChannel::Diagnosis => 2,
            CommunicationChannel::ISDU => 3,
        }
    }
}

/// The control octet of a master message: access direction in bit 7, channel
/// in bits 6 and 5, address in bits 4 to 0.
pub open spec fn mc(rw: RW, channel: CommunicationChannel, address: u8) -> u8 {
    (rw.code() << 7) | (channel.code() << 5) | address
}

/// Builds the control octet of a master message.
pub fn create_mc(rw: RW, channel: CommunicationChannel, address: u8) -> (octet: u8)
    requires
        address <= MAX_ADDRESS,
    ensures
        octet == mc(rw, channel, address),
{
    (rw.bit() << 7) | (channel.bits() << 5) | address
}

/// Builds the control octet of a master message if `address` fits its five
/// address bits, and turns any other address down.
pub fn try_create_mc(rw: RW, channel: CommunicationChannel, address: u8) -> (octet: Option<u8>)
    ensures
        address <= MAX_ADDRESS ==> octet == Some(mc(rw, channel, address)),
        address > MAX_ADDRESS ==> octet is None,
{
    if address > MAX_ADDRESS {
        None
    } else {
        Some(create_mc(rw, channel, address))
    }
}

impl M_Sequence_Type {
    /// The two-bit number of this M-sequence type on the wire.
    pub open spec fn code(self) -> u8 {
        match self {
            M_Sequence_Type::Type_0 => 0,
            M_Sequence_Type::Type_1 => 1,
            M_Sequence_Type::Type_2 => 2,
        }
    }

    /// The two-bit number of this M-sequence type on the wire.
    pub fn bits(self) -> (b: u8)
        ensures
            b == self.code(),
    {
        match self {
            M_Sequence_Type::Type_0 => 0,
            M_Sequence_Type::Type_1 => 1,
            M_Sequence_Type::Type_2 => 2,
        }
    }
}

/// The second octet of a master message before its checksum is filled in:
/// the M-sequence type in bits 7 and 6, the six checksum bits still zero.
pub open spec fn ckt(m_sequence_type: M_Sequence_Type) -> u8 {
    m_sequence_type.code() << 6
}

/// Builds the second octet of a master message with its checksum bits zero.
pub fn create_ckt_without_checksum(m_sequence_type: M_Sequence_Type) -> (octet: u8)
    ensures
        octet == ckt(m_sequence_type),
{
    m_sequence_type.bits() << 6
}

/// Bit `n` of `r`, as 0 or 1.
pub open spec fn bit(r: u8, n: u8) -> u8 {
    (r >> n) & 1
}

/// The exclusive-or of the seed and all octets of `octets`.
pub open spec fn fold(octets: Seq<u8>) -> u8
    decreases octets.len(),
{
    if octets.len() == 0 {
        SEED
    } else {
        fold(octets.drop_last()) ^ octets.last()
    }
}

/// Compresses the eight bits of a fold to the six checksum bits: bit 5 is
/// the parity of the odd bits, bit 4 the parity of the even bits, and bits 3
/// to 0 the parities of the four neighbouring pairs, from the top pair down.
pub open spec fn compress(r: u8) -> u8 {
    let c5 = bit(r, 7) ^ bit(r, 5) ^ bit(r, 3) ^ bit(r, 1);
    let c4 = bit(r, 6) ^ bit(r, 4) ^ bit(r, 2) ^ bit(r, 0);
    let c3 = bit(r, 7) ^ bit(r, 6);
    let c2 = bit(r, 5) ^ bit(r, 4);
    let c1 = bit(r, 3) ^ bit(r, 2);
    let c0 = bit(r, 1) ^ bit(r, 0);
    (c5 << 5) | (c4 << 4) | (c3 << 3) | (c2 << 2) | (c1 << 1) | c0
}

/// The six-bit checksum over the first `size` octets of a message.
pub open spec fn checksum(message: Seq<u8>, size: int) -> u8 {
    compress(fold(message.take(size)))
}

/// Computes the checksum over the first `size` octets of `message` and sets
/// its bits in the second octet. The other octets stay as they are.
pub fn calculate_checksum(message: &mut [u8], size: usize)
    requires
        2 <= old(message)@.len(),
        size <= old(message)@.len(),
    ensures
        final(message)@ == old(message)@.update(
            1,
            old(message)@[1] | checksum(old(message)@, size as int),
        ),
{
    let mut result: u8 = SEED;
    let mut n: usize = 0;
    while n < size
        invariant
            n <= size <= message@.len(),
            message@ == old(message)@,
            result == fold(message@.take(n as int)),
        decreases size - n,
    {
        proof {
            assert(message@.take(n + 1).drop_last() == message@.take(n as int));
        }
        result ^= message[n];
        n += 1;
    }
    let d7: u8 = (result >> 7) & 1;
    let d6: u8 = (result >> 6) & 1;
    let d5: u8 = (result >> 5) & 1;
    let d4: u8 = (result >> 4) & 1;
    let d3: u8 = (result >> 3) & 1;
    let d2: u8 = (result >> 2) & 1;
    let d1: u8 = (result >> 1) & 1;
    let d0: u8 = (result >> 0) & 1;

    let c5: u8 = d7 ^ d5 ^ d3 ^ d1;
    let c4: u8 = d6 ^ d4 ^ d2 ^ d0;
    let c3: u8 = d7 ^ d6;
    let c2: u8 = d5 ^ d4;
    let c1: u8 = d3 ^ d2;
    let c0: u8 = d1 ^ d0;

    let sum: u8 = (c5 << 5) | (c4 << 4) | (c3 << 3) | (c2 << 2) | (c1 << 1) | c0;
    message[1] |= sum;
}

/// The control octet as a number: the access bit weighs 128, the channel 32,
/// and the address fills the rest.
pub proof fn lemma_mc_value(rw: RW, channel: CommunicationChannel, address: u8)
    requires
        address <= MAX_ADDRESS,
    ensures
        mc(rw, channel, address) == 128 * rw.code() + 32 * channel.code() + address,
{
    let r: u8 = rw.code();
    let c: u8 = channel.code();
    assert(((r << 7) | (c << 5) | address) == 128 * r + 32 * c + address) by (bit_vector)
        requires
            r <= 1,
            c <= 3,
            address <= 31,
    ;
}

/// Each field of a control octet can be read back from it.
pub proof fn lemma_mc_fields(rw: RW, channel: CommunicationChannel, address: u8)
    requires
        address <= MAX_ADDRESS,
    ensures
        mc(rw, channel, address) >> 7 == rw.code(),
        (mc(rw, channel, address) >> 5) & 0b11 == channel.code(),
        mc(rw, channel, address) & 0b1_1111 == address,
{
    let r: u8 = rw.code();
    let c: u8 = channel.code();
    assert({
        let octet = (r << 7) | (c << 5) | address;
        &&& octet >> 7 == r
        &&& (octet >> 5) & 0b11 == c
        &&& octet & 0b1_1111 == address
    }) by (bit_vector)
        requires
            r <= 1,
            c <= 3,
            address <= 31,
    ;
}

/// Two control octets are equal only if they were built from the same
/// access direction, channel and address.
pub proof fn lemma_mc_injective(
    rw1: RW,
    channel1: CommunicationChannel,
    address1: u8,
    rw2: RW,
    channel2: CommunicationChannel,
    address2: u8,
)
    requires
        address1 <= MAX_ADDRESS,
        address2 <= MAX_ADDRESS,
        mc(rw1, channel1, address1) == mc(rw2, channel2, address2),
    ensures
        rw1 == rw2,
        channel1 == channel2,
        address1 == address2,
{
    lemma_mc_fields(rw1, channel1, address1);
    lemma_mc_fields(rw2, channel2, address2);
}

/// A compressed fold has six bits, and each of them is the parity that the
/// coding prescribes.
pub proof fn lemma_compress_bits(r: u8)
    ensures
        compress(r) < 64,
        bit(compress(r), 5) == bit(r, 7) ^ bit(r, 5) ^ bit(r, 3) ^ bit(r, 1),
        bit(compress(r), 4) == bit(r, 6) ^ bit(r, 4) ^ bit(r, 2) ^ bit(r, 0),
        bit(compress(r), 3) == bit(r, 7) ^ bit(r, 6),
        bit(compress(r), 2) == bit(r, 5) ^ bit(r, 4),
        bit(compress(r), 1) == bit(r, 3) ^ bit(r, 2),
        bit(compress(r), 0) == bit(r, 1) ^ bit(r, 0),
{
    assert(compress(r) < 64 && bit(compress(r), 5) == bit(r, 7) ^ bit(r, 5) ^ bit(r, 3) ^ bit(
        r,
        1,
    ) && bit(compress(r), 4) == bit(r, 6) ^ bit(r, 4) ^ bit(r, 2) ^ bit(r, 0) && bit(
        compress(r),
        3,
    ) == bit(r, 7) ^ bit(r, 6) && bit(compress(r), 2) == bit(r, 5) ^ bit(r, 4) && bit(
        compress(r),
        1,
    ) == bit(r, 3) ^ bit(r, 2) && bit(compress(r), 0) == bit(r, 1) ^ bit(r, 0)) by (bit_vector);
}

/// Setting a checksum in a second octet whose checksum bits are zero keeps
/// the M-sequence type and stores exactly the checksum.
pub proof fn lemma_checksum_in_ckt(m_sequence_type: M_Sequence_Type, r: u8)
    ensures
        (ckt(m_sequence_type) | compress(r)) >> 6 == m_sequence_type.code(),
        (ckt(m_sequence_type) | compress(r)) & 0b11_1111 == compress(r),
{
    lemma_compress_bits(r);
    let t: u8 = m_sequence_type.code();
    let c: u8 = compress(r);
    assert(((t << 6) | c) >> 6 == t && ((t << 6) | c) & 0b11_1111 == c) by (bit_vector)
        requires
            t <= 2,
            c < 64,
    ;
}

} // verus!
