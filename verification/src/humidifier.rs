//! Humidifiers: their modes and their night-light.
use crate::error::PacketError;
use crate::frame;
use crate::layout;
use crate::layout::Rule;
use crate::packet::GoveeBlePacket;
use crate::param::DecodePacketParam;
use vstd::prelude::*;

verus! {

/// A humidity that a humidifier aims at. It travels with an offset of 128, in
/// steps of 1%: 0% is 128, 100% is 228.
#[derive(Clone, Copy, Debug, PartialEq, Eq, Structural)]
pub struct TargetHumidity(u8);

impl Default for TargetHumidity {
    fn default() -> (humidity: Self)
        ensures
            humidity.raw() == 0,
    {
        TargetHumidity(0)
    }
}

impl TargetHumidity {
    /// The byte that travels.
    pub closed spec fn raw(self) -> u8 {
        self.0
    }

    /// The humidity of a byte.
    pub closed spec fn of_raw(raw: u8) -> Self {
        TargetHumidity(raw)
    }

    /// The humidity in percent: the byte without its top bit.
    pub open spec fn percent(self) -> u8 {
        self.raw() % 128
    }

    /// The humidity of a percentage, which the offset is added to.
    pub open spec fn of_percent(percent: u8) -> Self {
        Self::of_raw((percent + 128) as u8)
    }

    /// The humidity in percent: the byte without its top bit.
    pub fn as_percent(&self) -> (percent: u8)
        ensures
            percent == self.percent(),
    {
        let raw = self.0;
        assert(raw & 0x7f == raw % 128) by (bit_vector);
        raw & 0x7f
    }

    pub fn into_inner(self) -> (raw: u8)
        ensures
            raw == self.raw(),
    {
        self.0
    }

    pub fn from_percent(percent: u8) -> (humidity: Self)
        requires
            percent <= 127,
        ensures
            humidity == Self::of_percent(percent),
            humidity.raw() == percent + 128,
    {
        TargetHumidity(percent + 128)
    }
}

impl From<TargetHumidity> for u8 {
    fn from(val: TargetHumidity) -> (raw: Self) {
        val.0
    }
}

impl vstd::std_specs::convert::FromSpecImpl<TargetHumidity> for u8 {
    open spec fn obeys_from_spec() -> bool {
        true
    }

    open spec fn from_spec(val: TargetHumidity) -> Self {
        val.raw()
    }
}

impl DecodePacketParam for TargetHumidity {
    open spec fn width() -> nat {
        1
    }

    open spec fn param_bytes(&self) -> Seq<u8> {
        seq![self.raw()]
    }

    open spec fn of_param(bytes: Seq<u8>) -> Self {
        Self::of_raw(bytes[0])
    }

    proof fn lemma_param(value: Self) {
    }

    fn decode_param<'a>(&mut self, data: &'a [u8]) -> (rest: Result<&'a [u8], PacketError>) {
        self.0.decode_param(data)
    }

    fn encode_param(&self, target: &mut Vec<u8>) {
        target.push(self.0);
        assert(target@ =~= old(target)@ + self.param_bytes());
    }
}

/// A humidity and its byte determine each other.
pub proof fn law_raw_determines_humidity(humidity: TargetHumidity, raw: u8)
    ensures
        TargetHumidity::of_raw(raw).raw() == raw,
        TargetHumidity::of_raw(humidity.raw()) == humidity,
{
}

/// A humidity travels as its byte: a percentage with 128 added to it, of which
/// the percentage is what is left without the top bit.
pub proof fn law_humidity_byte(humidity: TargetHumidity, percent: u8, bytes: Seq<u8>)
    requires
        percent <= 127,
        bytes.len() == 1,
    ensures
        TargetHumidity::of_percent(percent).raw() == 128 + percent,
        humidity.raw() >= 128 ==> humidity.percent() == humidity.raw() - 128,
        humidity.raw() < 128 ==> humidity.percent() == humidity.raw(),
        <u8 as vstd::std_specs::convert::FromSpec<TargetHumidity>>::obeys_from_spec(),
        <u8 as vstd::std_specs::convert::FromSpec<TargetHumidity>>::from_spec(humidity)
            == humidity.raw(),
        TargetHumidity::width() == 1,
        humidity.param_bytes() == seq![humidity.raw()],
        TargetHumidity::of_param(bytes).raw() == bytes[0],
{
}

/// A percentage that was turned into a target humidity is read back from it.
pub proof fn law_percent_round_trip(percent: u8)
    requires
        percent <= 127,
    ensures
        TargetHumidity::of_percent(percent).percent() == percent,
{
}

/// Sets the mode of a humidifier.
#[derive(Clone, Debug, PartialEq, Eq, Structural)]
pub struct SetHumidifierMode {
    pub mode: u8,
    pub param: u8,
}

impl Default for SetHumidifierMode {
    fn default() -> (packet: Self)
        ensures
            packet == (SetHumidifierMode { mode: 0, param: 0 }),
    {
        SetHumidifierMode { mode: 0, param: 0 }
    }
}

impl SetHumidifierMode {
    pub open spec fn rules() -> Seq<Rule> {
        seq![
            Rule::Byte(0x33),
            Rule::Byte(0x05),
            Rule::Field,
            Rule::Field,
        ]
    }

    pub open spec fn fields(self) -> Seq<u8> {
        seq![self.mode, self.param]
    }

    pub open spec fn of_fields(fields: Seq<u8>) -> Self {
        SetHumidifierMode {
            mode: fields[0],
            param: fields[1],
        }
    }

    pub open spec fn encoding(self) -> Result<Seq<u8>, PacketError> {
        Ok(frame::framed(layout::formed(Self::rules(), self.fields())))
    }

    pub open spec fn decoding(data: Seq<u8>) -> Result<GoveeBlePacket, PacketError> {
        match layout::matched(Self::rules(), layout::body(data)) {
            Ok(fields) => Ok(GoveeBlePacket::SetHumidifierMode(Self::of_fields(fields))),
            Err(error) => Err(error),
        }
    }

    /// The frame `33 05 <mode> <param>`.
    pub fn encode(&self) -> (bytes: Result<Vec<u8>, PacketError>)
        ensures
            frame::bytes_of(bytes) == self.encoding(),
    {
        let mut bytes: Vec<u8> = Vec::new();
        bytes.push(0x33);
        bytes.push(0x05);
        self.mode.encode_param(&mut bytes);
        self.param.encode_param(&mut bytes);
        proof {
            reveal_with_fuel(layout::formed, 5);
            assert(bytes@ =~= layout::formed(Self::rules(), self.fields()));
        }
        Ok(frame::finish(bytes))
    }

    /// Recognises the frame `33 05 <mode> <param>`.
    pub fn decode(data: &[u8]) -> (packet: Result<GoveeBlePacket, PacketError>)
        ensures
            packet == Self::decoding(data@),
    {
        proof {
            reveal_with_fuel(layout::matched, 5);
        }
        let data = layout::packet_body(data);
        let mut value = Self::default();
        let data = layout::expect_byte(data, 0x33)?;
        let data = layout::expect_byte(data, 0x05)?;
        let data = value.mode.decode_param(data)?;
        let data = value.param.decode_param(data)?;
        layout::expect_zeros(data)?;
        Ok(GoveeBlePacket::SetHumidifierMode(value))
    }
}

/// A packet that was encoded is decoded to itself.
pub proof fn law_set_humidifier_mode_round_trip(packet: SetHumidifierMode)
    ensures
        packet.encoding() matches Ok(frame) && SetHumidifierMode::decoding(frame) == Ok::<
            GoveeBlePacket,
            PacketError,
        >(GoveeBlePacket::SetHumidifierMode(packet)),
{
    reveal_with_fuel(layout::field_count, 5);
    layout::lemma_framed_matches(SetHumidifierMode::rules(), packet.fields());
}

/// The frame of the packet is `33 05 <mode> <param>` and zeros,
/// sealed, and that frame is read as the packet.
pub proof fn law_set_humidifier_mode_frame(packet: SetHumidifierMode)
    ensures
        ({
            let frame = frame::framed(seq![
                0x33u8,
                0x05u8,
                packet.mode,
                packet.param,
            ]);
            &&& packet.encoding() == Ok::<Seq<u8>, PacketError>(frame)
            &&& SetHumidifierMode::decoding(frame) == Ok::<GoveeBlePacket, PacketError>(
                GoveeBlePacket::SetHumidifierMode(packet),
            )
        }),
{
    reveal_with_fuel(layout::formed, 5);
    law_set_humidifier_mode_round_trip(packet);
    assert(layout::formed(SetHumidifierMode::rules(), packet.fields()) =~= seq![
        0x33u8,
        0x05u8,
        packet.mode,
        packet.param,
    ]);
}

/// What is found in any bytes, where the last one is left out: the packet, where
/// they are `33 05 <mode> <param>` and zeros, and otherwise the
/// first thing that is wrong with them.
pub proof fn law_set_humidifier_mode_reading(data: Seq<u8>)
    ensures
        ({
            let n = data.len() - 1;
            let found = SetHumidifierMode::decoding(data);
            &&& n <= 0 ==> found == Err::<GoveeBlePacket, PacketError>(
                PacketError::UnexpectedByte { expected: 0x33, found: None },
            )
            &&& n > 0 && data[0] != 0x33 ==> found == Err::<GoveeBlePacket, PacketError>(
                PacketError::UnexpectedByte { expected: 0x33, found: Some(data[0]) },
            )
            &&& n == 1 && data[0] == 0x33 ==> found == Err::<GoveeBlePacket, PacketError>(
                PacketError::UnexpectedByte { expected: 0x05, found: None },
            )
            &&& n > 1 && data[0] == 0x33 && data[1] != 0x05 ==> found == Err::<GoveeBlePacket, PacketError>(
                PacketError::UnexpectedByte { expected: 0x05, found: Some(data[1]) },
            )
            &&& 2 <= n < 4 && data[0] == 0x33 && data[1] == 0x05 ==> found == Err::<GoveeBlePacket, PacketError>(PacketError::Eof)
            &&& n >= 4 && data[0] == 0x33 && data[1] == 0x05 && (exists|i: int| 4 <= i < n && data[i] != 0)
                ==> found == Err::<GoveeBlePacket, PacketError>(PacketError::NonzeroPadding)
            &&& n >= 4 && data[0] == 0x33 && data[1] == 0x05 && (forall|i: int| 4 <= i < n ==> data[i] == 0)
                ==> found == Ok::<GoveeBlePacket, PacketError>(
                GoveeBlePacket::SetHumidifierMode(SetHumidifierMode { mode: data[2], param: data[3] }),
            )
        }),
{
    reveal_with_fuel(layout::matched, 5);
    let n = data.len() - 1;
    if n >= 4 {
        let rest = data.drop_last().skip(1).skip(1).skip(1).skip(1);
        assert(rest =~= data.subrange(4, n));
        if exists|i: int| 4 <= i < n && data[i] != 0 {
            let i = choose|i: int| 4 <= i < n && data[i] != 0;
            assert(rest[i - 4] == data[i]);
        }
    }
}

/// The mode that a humidifier reports.
#[derive(Clone, Debug, PartialEq, Eq, Structural)]
pub struct NotifyHumidifierMode {
    pub mode: u8,
    pub param: u8,
}

impl Default for NotifyHumidifierMode {
    fn default() -> (packet: Self)
        ensures
            packet == (NotifyHumidifierMode { mode: 0, param: 0 }),
    {
        NotifyHumidifierMode { mode: 0, param: 0 }
    }
}

impl NotifyHumidifierMode {
    pub open spec fn rules() -> Seq<Rule> {
        seq![
            Rule::Byte(0xaa),
            Rule::Byte(0x05),
            Rule::Byte(0x00),
            Rule::Field,
            Rule::Field,
        ]
    }

    pub open spec fn fields(self) -> Seq<u8> {
        seq![self.mode, self.param]
    }

    pub open spec fn of_fields(fields: Seq<u8>) -> Self {
        NotifyHumidifierMode {
            mode: fields[0],
            param: fields[1],
        }
    }

    pub open spec fn encoding(self) -> Result<Seq<u8>, PacketError> {
        Ok(frame::framed(layout::formed(Self::rules(), self.fields())))
    }

    pub open spec fn decoding(data: Seq<u8>) -> Result<GoveeBlePacket, PacketError> {
        match layout::matched(Self::rules(), layout::body(data)) {
            Ok(fields) => Ok(GoveeBlePacket::NotifyHumidifierMode(Self::of_fields(fields))),
            Err(error) => Err(error),
        }
    }

    /// The frame `aa 05 00 <mode> <param>`.
    pub fn encode(&self) -> (bytes: Result<Vec<u8>, PacketError>)
        ensures
            frame::bytes_of(bytes) == self.encoding(),
    {
        let mut bytes: Vec<u8> = Vec::new();
        bytes.push(0xaa);
        bytes.push(0x05);
        bytes.push(0x00);
        self.mode.encode_param(&mut bytes);
        self.param.encode_param(&mut bytes);
        proof {
            reveal_with_fuel(layout::formed, 6);
            assert(bytes@ =~= layout::formed(Self::rules(), self.fields()));
        }
        Ok(frame::finish(bytes))
    }

    /// Recognises the frame `aa 05 00 <mode> <param>`.
    pub fn decode(data: &[u8]) -> (packet: Result<GoveeBlePacket, PacketError>)
        ensures
            packet == Self::decoding(data@),
    {
        proof {
            reveal_with_fuel(layout::matched, 6);
        }
        let data = layout::packet_body(data);
        let mut value = Self::default();
        let data = layout::expect_byte(data, 0xaa)?;
        let data = layout::expect_byte(data, 0x05)?;
        let data = layout::expect_byte(data, 0x00)?;
        let data = value.mode.decode_param(data)?;
        let data = value.param.decode_param(data)?;
        layout::expect_zeros(data)?;
        Ok(GoveeBlePacket::NotifyHumidifierMode(value))
    }
}

/// A packet that was encoded is decoded to itself.
pub proof fn law_notify_humidifier_mode_round_trip(packet: NotifyHumidifierMode)
    ensures
        packet.encoding() matches Ok(frame) && NotifyHumidifierMode::decoding(frame) == Ok::<
            GoveeBlePacket,
            PacketError,
        >(GoveeBlePacket::NotifyHumidifierMode(packet)),
{
    reveal_with_fuel(layout::field_count, 6);
    layout::lemma_framed_matches(NotifyHumidifierMode::rules(), packet.fields());
}

/// The frame of the packet is `aa 05 00 <mode> <param>` and zeros,
/// sealed, and that frame is read as the packet.
pub proof fn law_notify_humidifier_mode_frame(packet: NotifyHumidifierMode)
    ensures
        ({
            let frame = frame::framed(seq![
                0xaau8,
                0x05u8,
                0x00u8,
                packet.mode,
                packet.param,
            ]);
            &&& packet.encoding() == Ok::<Seq<u8>, PacketError>(frame)
            &&& NotifyHumidifierMode::decoding(frame) == Ok::<GoveeBlePacket, PacketError>(
                GoveeBlePacket::NotifyHumidifierMode(packet),
            )
        }),
{
    reveal_with_fuel(layout::formed, 6);
    law_notify_humidifier_mode_round_trip(packet);
    assert(layout::formed(NotifyHumidifierMode::rules(), packet.fields()) =~= seq![
        0xaau8,
        0x05u8,
        0x00u8,
        packet.mode,
        packet.param,
    ]);
}

/// What is found in any bytes, where the last one is left out: the packet, where
/// they are `aa 05 00 <mode> <param>` and zeros, and otherwise the
/// first thing that is wrong with them.
pub proof fn law_notify_humidifier_mode_reading(data: Seq<u8>)
    ensures
        ({
            let n = data.len() - 1;
            let found = NotifyHumidifierMode::decoding(data);
            &&& n <= 0 ==> found == Err::<GoveeBlePacket, PacketError>(
                PacketError::UnexpectedByte { expected: 0xaa, found: None },
            )
            &&& n > 0 && data[0] != 0xaa ==> found == Err::<GoveeBlePacket, PacketError>(
                PacketError::UnexpectedByte { expected: 0xaa, found: Some(data[0]) },
            )
            &&& n == 1 && data[0] == 0xaa ==> found == Err::<GoveeBlePacket, PacketError>(
                PacketError::UnexpectedByte { expected: 0x05, found: None },
            )
            &&& n > 1 && data[0] == 0xaa && data[1] != 0x05 ==> found == Err::<GoveeBlePacket, PacketError>(
                PacketError::UnexpectedByte { expected: 0x05, found: Some(data[1]) },
            )
            &&& n == 2 && data[0] == 0xaa && data[1] == 0x05 ==> found == Err::<GoveeBlePacket, PacketError>(
                PacketError::UnexpectedByte { expected: 0x00, found: None },
            )
            &&& n > 2 && data[0] == 0xaa && data[1] == 0x05 && data[2] != 0x00 ==> found == Err::<GoveeBlePacket, PacketError>(
                PacketError::UnexpectedByte { expected: 0x00, found: Some(data[2]) },
            )
            &&& 3 <= n < 5 && data[0] == 0xaa && data[1] == 0x05 && data[2] == 0x00 ==> found == Err::<GoveeBlePacket, PacketError>(PacketError::Eof)
            &&& n >= 5 && data[0] == 0xaa && data[1] == 0x05 && data[2] == 0x00 && (exists|i: int| 5 <= i < n && data[i] != 0)
                ==> found == Err::<GoveeBlePacket, PacketError>(PacketError::NonzeroPadding)
            &&& n >= 5 && data[0] == 0xaa && data[1] == 0x05 && data[2] == 0x00 && (forall|i: int| 5 <= i < n ==> data[i] == 0)
                ==> found == Ok::<GoveeBlePacket, PacketError>(
                GoveeBlePacket::NotifyHumidifierMode(NotifyHumidifierMode { mode: data[3], param: data[4] }),
            )
        }),
{
    reveal_with_fuel(layout::matched, 6);
    let n = data.len() - 1;
    if n >= 5 {
        let rest = data.drop_last().skip(1).skip(1).skip(1).skip(1).skip(1);
        assert(rest =~= data.subrange(5, n));
        if exists|i: int| 5 <= i < n && data[i] != 0 {
            let i = choose|i: int| 5 <= i < n && data[i] != 0;
            assert(rest[i - 5] == data[i]);
        }
    }
}

/// The automatic mode that a humidifier reports.
#[derive(Clone, Debug, PartialEq, Eq, Structural)]
pub struct HumidifierAutoMode {
    pub target_humidity: TargetHumidity,
}

impl Default for HumidifierAutoMode {
    fn default() -> (mode: Self)
        ensures
            mode.target_humidity.raw() == 0,
    {
        HumidifierAutoMode { target_humidity: TargetHumidity::default() }
    }
}

impl HumidifierAutoMode {
    pub open spec fn rules() -> Seq<Rule> {
        seq![
            Rule::Byte(0xaa),
            Rule::Byte(0x05),
            Rule::Byte(0x03),
            Rule::Field,
        ]
    }

    pub open spec fn fields(self) -> Seq<u8> {
        seq![self.target_humidity.raw()]
    }

    pub open spec fn of_fields(fields: Seq<u8>) -> Self {
        HumidifierAutoMode {
            target_humidity: TargetHumidity::of_raw(fields[0]),
        }
    }

    pub open spec fn encoding(self) -> Result<Seq<u8>, PacketError> {
        Ok(frame::framed(layout::formed(Self::rules(), self.fields())))
    }

    pub open spec fn decoding(data: Seq<u8>) -> Result<GoveeBlePacket, PacketError> {
        match layout::matched(Self::rules(), layout::body(data)) {
            Ok(fields) => Ok(GoveeBlePacket::NotifyHumidifierAutoMode(Self::of_fields(fields))),
            Err(error) => Err(error),
        }
    }

    /// The frame `aa 05 03 <target humidity>`.
    pub fn encode(&self) -> (bytes: Result<Vec<u8>, PacketError>)
        ensures
            frame::bytes_of(bytes) == self.encoding(),
    {
        let mut bytes: Vec<u8> = Vec::new();
        bytes.push(0xaa);
        bytes.push(0x05);
        bytes.push(0x03);
        self.target_humidity.encode_param(&mut bytes);
        proof {
            reveal_with_fuel(layout::formed, 5);
            assert(bytes@ =~= layout::formed(Self::rules(), self.fields()));
        }
        Ok(frame::finish(bytes))
    }

    /// Recognises the frame `aa 05 03 <target humidity>`.
    pub fn decode(data: &[u8]) -> (packet: Result<GoveeBlePacket, PacketError>)
        ensures
            packet == Self::decoding(data@),
    {
        proof {
            reveal_with_fuel(layout::matched, 5);
        }
        let data = layout::packet_body(data);
        let mut value = Self::default();
        let data = layout::expect_byte(data, 0xaa)?;
        let data = layout::expect_byte(data, 0x05)?;
        let data = layout::expect_byte(data, 0x03)?;
        let data = value.target_humidity.decode_param(data)?;
        layout::expect_zeros(data)?;
        Ok(GoveeBlePacket::NotifyHumidifierAutoMode(value))
    }
}

/// A packet that was encoded is decoded to itself.
pub proof fn law_notify_humidifier_auto_mode_round_trip(packet: HumidifierAutoMode)
    ensures
        packet.encoding() matches Ok(frame) && HumidifierAutoMode::decoding(frame) == Ok::<
            GoveeBlePacket,
            PacketError,
        >(GoveeBlePacket::NotifyHumidifierAutoMode(packet)),
{
    reveal_with_fuel(layout::field_count, 5);
    layout::lemma_framed_matches(HumidifierAutoMode::rules(), packet.fields());
}

/// The frame of the packet is `aa 05 03 <target humidity>` and zeros,
/// sealed, and that frame is read as the packet.
pub proof fn law_notify_humidifier_auto_mode_frame(packet: HumidifierAutoMode)
    ensures
        ({
            let frame = frame::framed(seq![
                0xaau8,
                0x05u8,
                0x03u8,
                packet.target_humidity.raw(),
            ]);
            &&& packet.encoding() == Ok::<Seq<u8>, PacketError>(frame)
            &&& HumidifierAutoMode::decoding(frame) == Ok::<GoveeBlePacket, PacketError>(
                GoveeBlePacket::NotifyHumidifierAutoMode(packet),
            )
        }),
{
    reveal_with_fuel(layout::formed, 5);
    law_notify_humidifier_auto_mode_round_trip(packet);
    assert(layout::formed(HumidifierAutoMode::rules(), packet.fields()) =~= seq![
        0xaau8,
        0x05u8,
        0x03u8,
        packet.target_humidity.raw(),
    ]);
}

/// What is found in any bytes, where the last one is left out: the packet, where
/// they are `aa 05 03 <target humidity>` and zeros, and otherwise the
/// first thing that is wrong with them.
pub proof fn law_notify_humidifier_auto_mode_reading(data: Seq<u8>)
    ensures
        ({
            let n = data.len() - 1;
            let found = HumidifierAutoMode::decoding(data);
            &&& n <= 0 ==> found == Err::<GoveeBlePacket, PacketError>(
                PacketError::UnexpectedByte { expected: 0xaa, found: None },
            )
            &&& n > 0 && data[0] != 0xaa ==> found == Err::<GoveeBlePacket, PacketError>(
                PacketError::UnexpectedByte { expected: 0xaa, found: Some(data[0]) },
            )
            &&& n == 1 && data[0] == 0xaa ==> found == Err::<GoveeBlePacket, PacketError>(
                PacketError::UnexpectedByte { expected: 0x05, found: None },
            )
            &&& n > 1 && data[0] == 0xaa && data[1] != 0x05 ==> found == Err::<GoveeBlePacket, PacketError>(
                PacketError::UnexpectedByte { expected: 0x05, found: Some(data[1]) },
            )
            &&& n == 2 && data[0] == 0xaa && data[1] == 0x05 ==> found == Err::<GoveeBlePacket, PacketError>(
                PacketError::UnexpectedByte { expected: 0x03, found: None },
            )
            &&& n > 2 && data[0] == 0xaa && data[1] == 0x05 && data[2] != 0x03 ==> found == Err::<GoveeBlePacket, PacketError>(
                PacketError::UnexpectedByte { expected: 0x03, found: Some(data[2]) },
            )
            &&& 3 <= n < 4 && data[0] == 0xaa && data[1] == 0x05 && data[2] == 0x03 ==> found == Err::<GoveeBlePacket, PacketError>(PacketError::Eof)
            &&& n >= 4 && data[0] == 0xaa && data[1] == 0x05 && data[2] == 0x03 && (exists|i: int| 4 <= i < n && data[i] != 0)
                ==> found == Err::<GoveeBlePacket, PacketError>(PacketError::NonzeroPadding)
            &&& n >= 4 && data[0] == 0xaa && data[1] == 0x05 && data[2] == 0x03 && (forall|i: int| 4 <= i < n ==> data[i] == 0)
                ==> found == Ok::<GoveeBlePacket, PacketError>(
                GoveeBlePacket::NotifyHumidifierAutoMode(HumidifierAutoMode { target_humidity: TargetHumidity::of_raw(data[3]) }),
            )
        }),
{
    reveal_with_fuel(layout::matched, 5);
    let n = data.len() - 1;
    if n >= 4 {
        let rest = data.drop_last().skip(1).skip(1).skip(1).skip(1);
        assert(rest =~= data.subrange(4, n));
        if exists|i: int| 4 <= i < n && data[i] != 0 {
            let i = choose|i: int| 4 <= i < n && data[i] != 0;
            assert(rest[i - 4] == data[i]);
        }
    }
}

/// The night-light that a humidifier reports.
#[derive(Clone, Copy, Debug, PartialEq, Eq, Structural)]
pub struct NotifyHumidifierNightlightParams {
    pub on: bool,
    pub r: u8,
    pub g: u8,
    pub b: u8,
    pub brightness: u8,
}

impl Default for NotifyHumidifierNightlightParams {
    fn default() -> (packet: Self)
        ensures
            packet == (NotifyHumidifierNightlightParams { on: false, r: 0, g: 0, b: 0, brightness: 0 }),
    {
        NotifyHumidifierNightlightParams { on: false, r: 0, g: 0, b: 0, brightness: 0 }
    }
}

impl NotifyHumidifierNightlightParams {
    pub open spec fn rules() -> Seq<Rule> {
        seq![
            Rule::Byte(0xaa),
            Rule::Byte(0x1b),
            Rule::Field,
            Rule::Field,
            Rule::Field,
            Rule::Field,
            Rule::Field,
        ]
    }

    pub open spec fn fields(self) -> Seq<u8> {
        seq![if self.on { 1u8 } else { 0u8 }, self.brightness, self.r, self.g, self.b]
    }

    pub open spec fn of_fields(fields: Seq<u8>) -> Self {
        NotifyHumidifierNightlightParams {
            on: fields[0] != 0,
            r: fields[2],
            g: fields[3],
            b: fields[4],
            brightness: fields[1],
        }
    }

    pub open spec fn encoding(self) -> Result<Seq<u8>, PacketError> {
        Ok(frame::framed(layout::formed(Self::rules(), self.fields())))
    }

    pub open spec fn decoding(data: Seq<u8>) -> Result<GoveeBlePacket, PacketError> {
        match layout::matched(Self::rules(), layout::body(data)) {
            Ok(fields) => Ok(GoveeBlePacket::NotifyHumidifierNightlight(Self::of_fields(fields))),
            Err(error) => Err(error),
        }
    }

    /// The frame `aa 1b <on> <brightness> <r> <g> <b>`.
    pub fn encode(&self) -> (bytes: Result<Vec<u8>, PacketError>)
        ensures
            frame::bytes_of(bytes) == self.encoding(),
    {
        let mut bytes: Vec<u8> = Vec::new();
        bytes.push(0xaa);
        bytes.push(0x1b);
        self.on.encode_param(&mut bytes);
        self.brightness.encode_param(&mut bytes);
        self.r.encode_param(&mut bytes);
        self.g.encode_param(&mut bytes);
        self.b.encode_param(&mut bytes);
        proof {
            reveal_with_fuel(layout::formed, 8);
            assert(bytes@ =~= layout::formed(Self::rules(), self.fields()));
        }
        Ok(frame::finish(bytes))
    }

    /// Recognises the frame `aa 1b <on> <brightness> <r> <g> <b>`.
    pub fn decode(data: &[u8]) -> (packet: Result<GoveeBlePacket, PacketError>)
        ensures
            packet == Self::decoding(data@),
    {
        proof {
            reveal_with_fuel(layout::matched, 8);
        }
        let data = layout::packet_body(data);
        let mut value = Self::default();
        let data = layout::expect_byte(data, 0xaa)?;
        let data = layout::expect_byte(data, 0x1b)?;
        let data = value.on.decode_param(data)?;
        let data = value.brightness.decode_param(data)?;
        let data = value.r.decode_param(data)?;
        let data = value.g.decode_param(data)?;
        let data = value.b.decode_param(data)?;
        layout::expect_zeros(data)?;
        Ok(GoveeBlePacket::NotifyHumidifierNightlight(value))
    }
}

/// A packet that was encoded is decoded to itself.
pub proof fn law_notify_humidifier_nightlight_round_trip(packet: NotifyHumidifierNightlightParams)
    ensures
        packet.encoding() matches Ok(frame) && NotifyHumidifierNightlightParams::decoding(frame) == Ok::<
            GoveeBlePacket,
            PacketError,
        >(GoveeBlePacket::NotifyHumidifierNightlight(packet)),
{
    reveal_with_fuel(layout::field_count, 8);
    layout::lemma_framed_matches(NotifyHumidifierNightlightParams::rules(), packet.fields());
}

/// The frame of the packet is `aa 1b <on> <brightness> <r> <g> <b>` and zeros,
/// sealed, and that frame is read as the packet.
pub proof fn law_notify_humidifier_nightlight_frame(packet: NotifyHumidifierNightlightParams)
    ensures
        ({
            let frame = frame::framed(seq![
                0xaau8,
                0x1bu8,
                if packet.on { 1u8 } else { 0u8 },
                packet.brightness,
                packet.r,
                packet.g,
                packet.b,
            ]);
            &&& packet.encoding() == Ok::<Seq<u8>, PacketError>(frame)
            &&& NotifyHumidifierNightlightParams::decoding(frame) == Ok::<GoveeBlePacket, PacketError>(
                GoveeBlePacket::NotifyHumidifierNightlight(packet),
            )
        }),
{
    reveal_with_fuel(layout::formed, 8);
    law_notify_humidifier_nightlight_round_trip(packet);
    assert(layout::formed(NotifyHumidifierNightlightParams::rules(), packet.fields()) =~= seq![
        0xaau8,
        0x1bu8,
        if packet.on { 1u8 } else { 0u8 },
        packet.brightness,
        packet.r,
        packet.g,
        packet.b,
    ]);
}

/// What is found in any bytes, where the last one is left out: the packet, where
/// they are `aa 1b <on> <brightness> <r> <g> <b>` and zeros, and otherwise the
/// first thing that is wrong with them.
pub proof fn law_notify_humidifier_nightlight_reading(data: Seq<u8>)
    ensures
        ({
            let n = data.len() - 1;
            let found = NotifyHumidifierNightlightParams::decoding(data);
            &&& n <= 0 ==> found == Err::<GoveeBlePacket, PacketError>(
                PacketError::UnexpectedByte { expected: 0xaa, found: None },
            )
            &&& n > 0 && data[0] != 0xaa ==> found == Err::<GoveeBlePacket, PacketError>(
                PacketError::UnexpectedByte { expected: 0xaa, found: Some(data[0]) },
            )
            &&& n == 1 && data[0] == 0xaa ==> found == Err::<GoveeBlePacket, PacketError>(
                PacketError::UnexpectedByte { expected: 0x1b, found: None },
            )
            &&& n > 1 && data[0] == 0xaa && data[1] != 0x1b ==> found == Err::<GoveeBlePacket, PacketError>(
                PacketError::UnexpectedByte { expected: 0x1b, found: Some(data[1]) },
            )
            &&& 2 <= n < 7 && data[0] == 0xaa && data[1] == 0x1b ==> found == Err::<GoveeBlePacket, PacketError>(PacketError::Eof)
            &&& n >= 7 && data[0] == 0xaa && data[1] == 0x1b && (exists|i: int| 7 <= i < n && data[i] != 0)
                ==> found == Err::<GoveeBlePacket, PacketError>(PacketError::NonzeroPadding)
            &&& n >= 7 && data[0] == 0xaa && data[1] == 0x1b && (forall|i: int| 7 <= i < n ==> data[i] == 0)
                ==> found == Ok::<GoveeBlePacket, PacketError>(
                GoveeBlePacket::NotifyHumidifierNightlight(NotifyHumidifierNightlightParams { on: data[2] != 0, brightness: data[3], r: data[4], g: data[5], b: data[6] }),
            )
        }),
{
    reveal_with_fuel(layout::matched, 8);
    let n = data.len() - 1;
    if n >= 7 {
        let rest = data.drop_last().skip(1).skip(1).skip(1).skip(1).skip(1).skip(1).skip(1);
        assert(rest =~= data.subrange(7, n));
        if exists|i: int| 7 <= i < n && data[i] != 0 {
            let i = choose|i: int| 7 <= i < n && data[i] != 0;
            assert(rest[i - 7] == data[i]);
        }
    }
}

/// Sets the night-light of a humidifier.
#[derive(Clone, Copy, Debug, PartialEq, Eq, Structural)]
pub struct SetHumidifierNightlightParams {
    pub on: bool,
    pub r: u8,
    pub g: u8,
    pub b: u8,
    pub brightness: u8,
}

impl Default for SetHumidifierNightlightParams {
    fn default() -> (packet: Self)
        ensures
            packet == (SetHumidifierNightlightParams { on: false, r: 0, g: 0, b: 0, brightness: 0 }),
    {
        SetHumidifierNightlightParams { on: false, r: 0, g: 0, b: 0, brightness: 0 }
    }
}

impl SetHumidifierNightlightParams {
    pub open spec fn rules() -> Seq<Rule> {
        seq![
            Rule::Byte(0x33),
            Rule::Byte(0x1b),
            Rule::Field,
            Rule::Field,
            Rule::Field,
            Rule::Field,
            Rule::Field,
        ]
    }

    pub open spec fn fields(self) -> Seq<u8> {
        seq![if self.on { 1u8 } else { 0u8 }, self.brightness, self.r, self.g, self.b]
    }

    pub open spec fn of_fields(fields: Seq<u8>) -> Self {
        SetHumidifierNightlightParams {
            on: fields[0] != 0,
            r: fields[2],
            g: fields[3],
            b: fields[4],
            brightness: fields[1],
        }
    }

    pub open spec fn encoding(self) -> Result<Seq<u8>, PacketError> {
        Ok(frame::framed(layout::formed(Self::rules(), self.fields())))
    }

    pub open spec fn decoding(data: Seq<u8>) -> Result<GoveeBlePacket, PacketError> {
        match layout::matched(Self::rules(), layout::body(data)) {
            Ok(fields) => Ok(GoveeBlePacket::SetHumidifierNightlight(Self::of_fields(fields))),
            Err(error) => Err(error),
        }
    }

    /// The frame `33 1b <on> <brightness> <r> <g> <b>`.
    pub fn encode(&self) -> (bytes: Result<Vec<u8>, PacketError>)
        ensures
            frame::bytes_of(bytes) == self.encoding(),
    {
        let mut bytes: Vec<u8> = Vec::new();
        bytes.push(0x33);
        bytes.push(0x1b);
        self.on.encode_param(&mut bytes);
        self.brightness.encode_param(&mut bytes);
        self.r.encode_param(&mut bytes);
        self.g.encode_param(&mut bytes);
        self.b.encode_param(&mut bytes);
        proof {
            reveal_with_fuel(layout::formed, 8);
            assert(bytes@ =~= layout::formed(Self::rules(), self.fields()));
        }
        Ok(frame::finish(bytes))
    }

    /// Recognises the frame `33 1b <on> <brightness> <r> <g> <b>`.
    pub fn decode(data: &[u8]) -> (packet: Result<GoveeBlePacket, PacketError>)
        ensures
            packet == Self::decoding(data@),
    {
        proof {
            reveal_with_fuel(layout::matched, 8);
        }
        let data = layout::packet_body(data);
        let mut value = Self::default();
        let data = layout::expect_byte(data, 0x33)?;
        let data = layout::expect_byte(data, 0x1b)?;
        let data = value.on.decode_param(data)?;
        let data = value.brightness.decode_param(data)?;
        let data = value.r.decode_param(data)?;
        let data = value.g.decode_param(data)?;
        let data = value.b.decode_param(data)?;
        layout::expect_zeros(data)?;
        Ok(GoveeBlePacket::SetHumidifierNightlight(value))
    }
}

/// A packet that was encoded is decoded to itself.
pub proof fn law_set_humidifier_nightlight_round_trip(packet: SetHumidifierNightlightParams)
    ensures
        packet.encoding() matches Ok(frame) && SetHumidifierNightlightParams::decoding(frame) == Ok::<
            GoveeBlePacket,
            PacketError,
        >(GoveeBlePacket::SetHumidifierNightlight(packet)),
{
    reveal_with_fuel(layout::field_count, 8);
    layout::lemma_framed_matches(SetHumidifierNightlightParams::rules(), packet.fields());
}

/// The frame of the packet is `33 1b <on> <brightness> <r> <g> <b>` and zeros,
/// sealed, and that frame is read as the packet.
pub proof fn law_set_humidifier_nightlight_frame(packet: SetHumidifierNightlightParams)
    ensures
        ({
            let frame = frame::framed(seq![
                0x33u8,
                0x1bu8,
                if packet.on { 1u8 } else { 0u8 },
                packet.brightness,
                packet.r,
                packet.g,
                packet.b,
            ]);
            &&& packet.encoding() == Ok::<Seq<u8>, PacketError>(frame)
            &&& SetHumidifierNightlightParams::decoding(frame) == Ok::<GoveeBlePacket, PacketError>(
                GoveeBlePacket::SetHumidifierNightlight(packet),
            )
        }),
{
    reveal_with_fuel(layout::formed, 8);
    law_set_humidifier_nightlight_round_trip(packet);
    assert(layout::formed(SetHumidifierNightlightParams::rules(), packet.fields()) =~= seq![
        0x33u8,
        0x1bu8,
        if packet.on { 1u8 } else { 0u8 },
        packet.brightness,
        packet.r,
        packet.g,
        packet.b,
    ]);
}

/// What is found in any bytes, where the last one is left out: the packet, where
/// they are `33 1b <on> <brightness> <r> <g> <b>` and zeros, and otherwise the
/// first thing that is wrong with them.
pub proof fn law_set_humidifier_nightlight_reading(data: Seq<u8>)
    ensures
        ({
            let n = data.len() - 1;
            let found = SetHumidifierNightlightParams::decoding(data);
            &&& n <= 0 ==> found == Err::<GoveeBlePacket, PacketError>(
                PacketError::UnexpectedByte { expected: 0x33, found: None },
            )
            &&& n > 0 && data[0] != 0x33 ==> found == Err::<GoveeBlePacket, PacketError>(
                PacketError::UnexpectedByte { expected: 0x33, found: Some(data[0]) },
            )
            &&& n == 1 && data[0] == 0x33 ==> found == Err::<GoveeBlePacket, PacketError>(
                PacketError::UnexpectedByte { expected: 0x1b, found: None },
            )
            &&& n > 1 && data[0] == 0x33 && data[1] != 0x1b ==> found == Err::<GoveeBlePacket, PacketError>(
                PacketError::UnexpectedByte { expected: 0x1b, found: Some(data[1]) },
            )
            &&& 2 <= n < 7 && data[0] == 0x33 && data[1] == 0x1b ==> found == Err::<GoveeBlePacket, PacketError>(PacketError::Eof)
            &&& n >= 7 && data[0] == 0x33 && data[1] == 0x1b && (exists|i: int| 7 <= i < n && data[i] != 0)
                ==> found == Err::<GoveeBlePacket, PacketError>(PacketError::NonzeroPadding)
            &&& n >= 7 && data[0] == 0x33 && data[1] == 0x1b && (forall|i: int| 7 <= i < n ==> data[i] == 0)
                ==> found == Ok::<GoveeBlePacket, PacketError>(
                GoveeBlePacket::SetHumidifierNightlight(SetHumidifierNightlightParams { on: data[2] != 0, brightness: data[3], r: data[4], g: data[5], b: data[6] }),
            )
        }),
{
    reveal_with_fuel(layout::matched, 8);
    let n = data.len() - 1;
    if n >= 7 {
        let rest = data.drop_last().skip(1).skip(1).skip(1).skip(1).skip(1).skip(1).skip(1);
        assert(rest =~= data.subrange(7, n));
        if exists|i: int| 7 <= i < n && data[i] != 0 {
            let i = choose|i: int| 7 <= i < n && data[i] != 0;
            assert(rest[i - 7] == data[i]);
        }
    }
}

/// The night-light that sets what another reports.
impl From<NotifyHumidifierNightlightParams> for SetHumidifierNightlightParams {
    fn from(val: NotifyHumidifierNightlightParams) -> (params: Self) {
        SetHumidifierNightlightParams {
            on: val.on,
            r: val.r,
            g: val.g,
            b: val.b,
            brightness: val.brightness,
        }
    }
}

impl vstd::std_specs::convert::FromSpecImpl<NotifyHumidifierNightlightParams> for SetHumidifierNightlightParams {
    open spec fn obeys_from_spec() -> bool {
        true
    }

    open spec fn from_spec(val: NotifyHumidifierNightlightParams) -> Self {
        SetHumidifierNightlightParams {
            on: val.on,
            r: val.r,
            g: val.g,
            b: val.b,
            brightness: val.brightness,
        }
    }
}

/// A night-light that is set to what another reports is on, bright and coloured
/// as that one.
pub proof fn law_reported_nightlight_is_set(report: NotifyHumidifierNightlightParams)
    ensures
        <SetHumidifierNightlightParams as vstd::std_specs::convert::FromSpec<
            NotifyHumidifierNightlightParams,
        >>::obeys_from_spec(),
        ({
            let params = <SetHumidifierNightlightParams as vstd::std_specs::convert::FromSpec<
                NotifyHumidifierNightlightParams,
            >>::from_spec(report);
            &&& params.on == report.on
            &&& params.r == report.r
            &&& params.g == report.g
            &&& params.b == report.b
            &&& params.brightness == report.brightness
        }),
{
}

} // verus!
