//! The register protocol that both devices speak: a two-byte frame whose
//! first byte is the register's address, with the top bit telling a read from
//! a write, and whose second byte is the register's value.

use vstd::prelude::*;

verus! {

/// The bit of the first byte of a frame that is set on a read and clear on a
/// write.
pub const READ_FLAG: u8 = 0x80;

/// The bits of the first byte of a frame that hold the register's address.
pub const ADDRESS_MASK: u8 = 0x7f;

/// A value that a device keeps in one register.
pub trait Register: Sized {
    /// The byte that stands for this value in the device.
    spec fn raw(&self) -> u8;

    /// The value that `raw` stands for, if it stands for one.
    spec fn parse(raw: u8) -> Option<Self>;

    fn encode(&self) -> (raw: u8)
        ensures
            raw == self.raw(),
    ;

    fn decode(raw: u8) -> (value: Option<Self>)
        ensures
            value == Self::parse(raw),
    ;

    /// A value that is written to a register and read back is the same
    /// value.
    proof fn lemma_round_trip(&self)
        ensures
            Self::parse(self.raw()) == Some(*self),
    ;
}

/// A register that is read and written as the byte it is: every byte stands
/// for itself.
impl Register for u8 {
    open spec fn raw(&self) -> u8 {
        *self
    }

    open spec fn parse(raw: u8) -> Option<u8> {
        Some(raw)
    }

    fn encode(&self) -> (raw: u8) {
        *self
    }

    fn decode(raw: u8) -> (value: Option<u8>) {
        Some(raw)
    }

    proof fn lemma_round_trip(&self) {
    }
}

pub open spec fn spec_read_command(address: u8) -> u8 {
    address | READ_FLAG
}

pub open spec fn spec_write_command(address: u8) -> u8 {
    address & ADDRESS_MASK
}

/// The first byte of a frame that reads the register at `address`.
#[verifier::when_used_as_spec(spec_read_command)]
pub fn read_command(address: u8) -> (command: u8)
    ensures
        command == spec_read_command(address),
        command & READ_FLAG == READ_FLAG,
        command & ADDRESS_MASK == address & ADDRESS_MASK,
{
    proof {
        lemma_address_discriminator(address);
    }
    address | READ_FLAG
}

/// The first byte of a frame that writes the register at `address`.
#[verifier::when_used_as_spec(spec_write_command)]
pub fn write_command(address: u8) -> (command: u8)
    ensures
        command == spec_write_command(address),
        command & READ_FLAG == 0,
        command & ADDRESS_MASK == address & ADDRESS_MASK,
{
    proof {
        lemma_address_discriminator(address);
    }
    address & ADDRESS_MASK
}

/// The top bit of the first byte of a frame is set on every read and clear on
/// every write, whatever the top bit of the address, and the other seven
/// bits are those of the address.
pub proof fn lemma_address_discriminator(address: u8)
    ensures
        read_command(address) & READ_FLAG == READ_FLAG,
        write_command(address) & READ_FLAG == 0,
        read_command(address) & ADDRESS_MASK == address & ADDRESS_MASK,
        write_command(address) & ADDRESS_MASK == address & ADDRESS_MASK,
{
    assert((address | 0x80) & 0x80 == 0x80) by (bit_vector);
    assert((address & 0x7f) & 0x80 == 0) by (bit_vector);
    assert((address | 0x80) & 0x7f == address & 0x7f) by (bit_vector);
    assert((address & 0x7f) & 0x7f == address & 0x7f) by (bit_vector);
}

/// The frame that reads the register at `address`.
pub open spec fn spec_read_frame(address: u8) -> Seq<u8> {
    seq![read_command(address), 0u8]
}

/// The frame that writes `value` to the register at `address`.
pub open spec fn spec_write_frame(address: u8, value: u8) -> Seq<u8> {
    seq![write_command(address), value]
}

/// The frame that reads the register at `address`: the read command, then
/// a byte of nothing for the device to answer over.
pub fn read_frame(address: u8) -> (frame: Vec<u8>)
    ensures
        frame@ == spec_read_frame(address),
{
    let mut frame: Vec<u8> = Vec::new();
    frame.push(read_command(address));
    frame.push(0u8);
    assert(frame@ =~= spec_read_frame(address));
    frame
}

/// The frame that writes `value` to the register at `address`: the write
/// command, then the byte that stands for the value.
pub fn write_frame<R: Register>(address: u8, value: &R) -> (frame: Vec<u8>)
    ensures
        frame@ == spec_write_frame(address, value.raw()),
{
    let mut frame: Vec<u8> = Vec::new();
    frame.push(write_command(address));
    frame.push(value.encode());
    assert(frame@ =~= spec_write_frame(address, value.raw()));
    frame
}

/// The value that a device answered a read frame with. The answer comes in
/// the second byte; the first was clocked in while the command went out and
/// means nothing.
pub fn decode_response<R: Register>(response: &Vec<u8>) -> (value: Option<R>)
    requires
        response.len() == 2,
    ensures
        value == R::parse(response@[1]),
{
    R::decode(response[1])
}

} // verus!
