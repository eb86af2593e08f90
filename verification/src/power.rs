//! Power of lights.
use crate::error::PacketError;
use crate::frame;
use crate::layout;
use crate::layout::Rule;
use crate::packet::GoveeBlePacket;
use crate::param::DecodePacketParam;
use vstd::prelude::*;

verus! {

/// Switches a light on or off.
#[derive(Clone, Debug, PartialEq, Eq, Structural)]
pub struct SetDevicePower {
    pub on: bool,
}

impl Default for SetDevicePower {
    fn default() -> (power: Self)
        ensures
            power == (SetDevicePower { on: false }),
    {
        SetDevicePower { on: false }
    }
}

impl SetDevicePower {
    pub open spec fn rules() -> Seq<Rule> {
        seq![Rule::Byte(0x33), Rule::Byte(0x01), Rule::Field]
    }

    pub open spec fn fields(self) -> Seq<u8> {
        seq![if self.on { 1u8 } else { 0u8 }]
    }

    pub open spec fn of_fields(fields: Seq<u8>) -> Self {
        SetDevicePower { on: fields[0] != 0 }
    }

    pub open spec fn encoding(self) -> Result<Seq<u8>, PacketError> {
        Ok(frame::framed(layout::formed(Self::rules(), self.fields())))
    }

    pub open spec fn decoding(data: Seq<u8>) -> Result<GoveeBlePacket, PacketError> {
        match layout::matched(Self::rules(), layout::body(data)) {
            Ok(fields) => Ok(GoveeBlePacket::SetDevicePower(Self::of_fields(fields))),
            Err(error) => Err(error),
        }
    }

    /// The frame `33 01 <on>`.
    pub fn encode(&self) -> (bytes: Result<Vec<u8>, PacketError>)
        ensures
            frame::bytes_of(bytes) == self.encoding(),
    {
        let mut bytes: Vec<u8> = Vec::new();
        bytes.push(0x33);
        bytes.push(0x01);
        self.on.encode_param(&mut bytes);
        proof {
            reveal_with_fuel(layout::formed, 4);
            assert(bytes@ =~= layout::formed(Self::rules(), self.fields()));
        }
        Ok(frame::finish(bytes))
    }

    /// Recognises the frame `33 01 <on>`.
    pub fn decode(data: &[u8]) -> (packet: Result<GoveeBlePacket, PacketError>)
        ensures
            packet == Self::decoding(data@),
    {
        proof {
            reveal_with_fuel(layout::matched, 4);
        }
        let data = layout::packet_body(data);
        let mut value = Self::default();
        let data = layout::expect_byte(data, 0x33)?;
        let data = layout::expect_byte(data, 0x01)?;
        let data = value.on.decode_param(data)?;
        layout::expect_zeros(data)?;
        Ok(GoveeBlePacket::SetDevicePower(value))
    }
}

/// A power packet that was encoded is decoded to itself.
pub proof fn law_power_round_trip(packet: SetDevicePower)
    ensures
        packet.encoding() matches Ok(frame) && SetDevicePower::decoding(frame) == Ok::<
            GoveeBlePacket,
            PacketError,
        >(GoveeBlePacket::SetDevicePower(packet)),
{
    reveal_with_fuel(layout::field_count, 4);
    layout::lemma_framed_matches(SetDevicePower::rules(), packet.fields());
}

/// The frame of the packet is `33 01 <on>` and zeros,
/// sealed, and that frame is read as the packet.
pub proof fn law_power_frame(packet: SetDevicePower)
    ensures
        ({
            let frame = frame::framed(seq![
                0x33u8,
                0x01u8,
                if packet.on { 1u8 } else { 0u8 },
            ]);
            &&& packet.encoding() == Ok::<Seq<u8>, PacketError>(frame)
            &&& SetDevicePower::decoding(frame) == Ok::<GoveeBlePacket, PacketError>(
                GoveeBlePacket::SetDevicePower(packet),
            )
        }),
{
    reveal_with_fuel(layout::formed, 4);
    law_power_round_trip(packet);
    assert(layout::formed(SetDevicePower::rules(), packet.fields()) =~= seq![
        0x33u8,
        0x01u8,
        if packet.on { 1u8 } else { 0u8 },
    ]);
}

/// What is found in any bytes, where the last one is left out: the packet, where
/// they are `33 01 <on>` and zeros, and otherwise the
/// first thing that is wrong with them.
pub proof fn law_power_reading(data: Seq<u8>)
    ensures
        ({
            let n = data.len() - 1;
            let found = SetDevicePower::decoding(data);
            &&& n <= 0 ==> found == Err::<GoveeBlePacket, PacketError>(
                PacketError::UnexpectedByte { expected: 0x33, found: None },
            )
            &&& n > 0 && data[0] != 0x33 ==> found == Err::<GoveeBlePacket, PacketError>(
                PacketError::UnexpectedByte { expected: 0x33, found: Some(data[0]) },
            )
            &&& n == 1 && data[0] == 0x33 ==> found == Err::<GoveeBlePacket, PacketError>(
                PacketError::UnexpectedByte { expected: 0x01, found: None },
            )
            &&& n > 1 && data[0] == 0x33 && data[1] != 0x01 ==> found == Err::<GoveeBlePacket, PacketError>(
                PacketError::UnexpectedByte { expected: 0x01, found: Some(data[1]) },
            )
            &&& 2 <= n < 3 && data[0] == 0x33 && data[1] == 0x01 ==> found == Err::<GoveeBlePacket, PacketError>(PacketError::Eof)
            &&& n >= 3 && data[0] == 0x33 && data[1] == 0x01 && (exists|i: int| 3 <= i < n && data[i] != 0)
                ==> found == Err::<GoveeBlePacket, PacketError>(PacketError::NonzeroPadding)
            &&& n >= 3 && data[0] == 0x33 && data[1] == 0x01 && (forall|i: int| 3 <= i < n ==> data[i] == 0)
                ==> found == Ok::<GoveeBlePacket, PacketError>(
                GoveeBlePacket::SetDevicePower(SetDevicePower { on: data[2] != 0 }),
            )
        }),
{
    reveal_with_fuel(layout::matched, 4);
    let n = data.len() - 1;
    if n >= 3 {
        let rest = data.drop_last().skip(1).skip(1).skip(1);
        assert(rest =~= data.subrange(3, n));
        if exists|i: int| 3 <= i < n && data[i] != 0 {
            let i = choose|i: int| 3 <= i < n && data[i] != 0;
            assert(rest[i - 3] == data[i]);
        }
    }
}

} // verus!
