//! Packet fields: how a value is laid out in the bytes of a packet.
use crate::error::PacketError;
use vstd::prelude::*;

verus! {

/// A value that can stand in a packet as a field.
pub trait DecodePacketParam: Sized {
    /// How many bytes a field of this type takes.
    spec fn width() -> nat;

    /// The bytes of the field.
    spec fn param_bytes(&self) -> Seq<u8>;

    /// The value of a field with these bytes, which are `width` many.
    spec fn of_param(bytes: Seq<u8>) -> Self;

    /// Every value takes `width` bytes, and they give the value back.
    proof fn lemma_param(value: Self)
        ensures
            value.param_bytes().len() == Self::width(),
            Self::of_param(value.param_bytes()) == value,
    ;

    /// Reads the field off the front of `data` and returns what follows it.
    /// Where `data` is too short, the value stays as it was.
    fn decode_param<'a>(&mut self, data: &'a [u8]) -> (rest: Result<&'a [u8], PacketError>)
        ensures
            match rest {
                Ok(rest) => {
                    &&& data@.len() >= Self::width()
                    &&& *final(self) == Self::of_param(data@.take(Self::width() as int))
                    &&& rest@ == data@.skip(Self::width() as int)
                },
                Err(error) => {
                    &&& data@.len() < Self::width()
                    &&& *final(self) == *old(self)
                    &&& error == PacketError::Eof
                },
            },
    ;

    /// Appends the field to `target`.
    fn encode_param(&self, target: &mut Vec<u8>)
        ensures
            final(target)@ == old(target)@ + self.param_bytes(),
    ;
}

/// A field that was encoded is decoded to the same value, whatever follows it,
/// and what follows is left over.
pub proof fn law_param_round_trip<T: DecodePacketParam>(value: T, tail: Seq<u8>)
    ensures
        ({
            let data = value.param_bytes() + tail;
            let width = T::width() as int;
            &&& data.len() >= width
            &&& T::of_param(data.take(width)) == value
            &&& data.skip(width) == tail
        }),
{
    T::lemma_param(value);
    let data = value.param_bytes() + tail;
    assert(data.take(T::width() as int) =~= value.param_bytes());
    assert(data.skip(T::width() as int) =~= tail);
}

impl DecodePacketParam for u8 {
    open spec fn width() -> nat {
        1
    }

    open spec fn param_bytes(&self) -> Seq<u8> {
        seq![*self]
    }

    open spec fn of_param(bytes: Seq<u8>) -> Self {
        bytes[0]
    }

    proof fn lemma_param(value: Self) {
    }

    fn decode_param<'a>(&mut self, data: &'a [u8]) -> (rest: Result<&'a [u8], PacketError>) {
        if data.len() < 1 {
            return Err(PacketError::Eof);
        }
        *self = data[0];
        Ok(&data[1..data.len()])
    }

    fn encode_param(&self, target: &mut Vec<u8>) {
        target.push(*self);
        assert(target@ =~= old(target)@ + self.param_bytes());
    }
}

/// Two bytes, the low one first.
impl DecodePacketParam for u16 {
    open spec fn width() -> nat {
        2
    }

    open spec fn param_bytes(&self) -> Seq<u8> {
        seq![(*self % 256) as u8, (*self / 256) as u8]
    }

    open spec fn of_param(bytes: Seq<u8>) -> Self {
        (bytes[1] * 256 + bytes[0]) as u16
    }

    proof fn lemma_param(value: Self) {
    }

    fn decode_param<'a>(&mut self, data: &'a [u8]) -> (rest: Result<&'a [u8], PacketError>) {
        if data.len() < 2 {
            return Err(PacketError::Eof);
        }
        let lo = data[0];
        let hi = data[1];
        assert(((hi as u16) << 8u16) | (lo as u16) == hi * 256 + lo) by (bit_vector);
        *self = ((hi as u16) << 8u16) | (lo as u16);
        Ok(&data[2..data.len()])
    }

    fn encode_param(&self, target: &mut Vec<u8>) {
        let value = *self;
        let hi = (value >> 8u16) as u8;
        let lo = (value & 0xff) as u8;
        assert(value >> 8u16 == value / 256) by (bit_vector);
        assert(value & 0xff == value % 256) by (bit_vector);
        target.push(lo);
        target.push(hi);
        assert(target@ =~= old(target)@ + self.param_bytes());
    }
}

/// The byte that stands for a flag.
pub fn btoi(on: bool) -> (byte: u8)
    ensures
        byte == (if on { 1u8 } else { 0u8 }),
{
    if on {
        1
    } else {
        0
    }
}

/// The flag that a byte stands for.
pub fn itob(i: &u8) -> (on: bool)
    ensures
        on == (*i != 0),
{
    *i != 0
}

/// One byte: one for `true`, zero for `false`. Any other byte than zero reads
/// as `true`.
impl DecodePacketParam for bool {
    open spec fn width() -> nat {
        1
    }

    open spec fn param_bytes(&self) -> Seq<u8> {
        seq![if *self { 1u8 } else { 0u8 }]
    }

    open spec fn of_param(bytes: Seq<u8>) -> Self {
        bytes[0] != 0
    }

    proof fn lemma_param(value: Self) {
    }

    fn decode_param<'a>(&mut self, data: &'a [u8]) -> (rest: Result<&'a [u8], PacketError>) {
        let mut byte: u8 = 0;
        let rest = byte.decode_param(data)?;
        *self = itob(&byte);
        Ok(rest)
    }

    fn encode_param(&self, target: &mut Vec<u8>) {
        target.push(btoi(*self));
        assert(target@ =~= old(target)@ + self.param_bytes());
    }
}

/// How fields of each type look: a byte is itself, a word is its low byte and
/// then its high byte, and a flag is one or zero, where every byte but zero reads
/// as set.
pub proof fn law_field_bytes(byte: u8, word: u16, flag: bool, one: Seq<u8>, two: Seq<u8>)
    requires
        one.len() == 1,
        two.len() == 2,
    ensures
        u8::width() == 1,
        byte.param_bytes() == seq![byte],
        u8::of_param(one) == one[0],
        u16::width() == 2,
        word.param_bytes().len() == 2,
        word == word.param_bytes()[0] + 256 * word.param_bytes()[1],
        u16::of_param(two) == two[0] + 256 * two[1],
        bool::width() == 1,
        flag.param_bytes().len() == 1,
        flag.param_bytes()[0] == 1 <==> flag,
        flag.param_bytes()[0] == 0 <==> !flag,
        bool::of_param(one) <==> one[0] != 0,
{
}

} // verus!
