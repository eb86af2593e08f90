//! Packets: the values that travel in frames, and the raw bytes of those that
//! are not understood.
use crate::base64;
use crate::base64::Base64Error;
use crate::error::PacketError;
use crate::formatting;
use crate::frame;
use crate::humidifier::{
    HumidifierAutoMode, NotifyHumidifierMode, NotifyHumidifierNightlightParams, SetHumidifierMode,
    SetHumidifierNightlightParams,
};
use crate::layout;
use crate::manager;
use crate::manager::PacketManager;
use crate::music;
use crate::music::SetMusicPalette;
use crate::power::SetDevicePower;
use crate::rice_cooker::{
    NotifyRiceCookerActiveProgram, NotifyRiceCookerProgramParams, NotifyRiceCookerProgramPhase,
};
use crate::scene;
use crate::scene::SetSceneCode;
use crate::text;
use vstd::prelude::*;
use vstd::string::StringExecFns;

verus! {

/// Bytes without further meaning.
#[derive(Clone, PartialEq, Eq)]
pub struct HexBytes(Vec<u8>);

/// Writes what [`HexBytes::to_hex`] returns.
impl core::fmt::Debug for HexBytes {
    fn fmt(&self, f: &mut core::fmt::Formatter<'_>) -> (done: Result<(), core::fmt::Error>) {
        f.write_str(self.to_hex().as_str())
    }
}

impl View for HexBytes {
    type V = Seq<u8>;

    closed spec fn view(&self) -> Seq<u8> {
        self.0@
    }
}

impl HexBytes {
    pub(crate) fn new(bytes: Vec<u8>) -> (hex: Self)
        ensures
            hex@ == bytes@,
    {
        HexBytes(bytes)
    }

    pub fn as_slice(&self) -> (bytes: &[u8])
        ensures
            bytes@ == self@,
    {
        self.0.as_slice()
    }

    /// The bytes as a list of two-digit hexadecimal numbers, in brackets.
    pub fn to_hex(&self) -> (list: String)
        ensures
            list@ == "["@ + text::hex_items_text(self@) + "]"@,
    {
        let mut list = "[".to_owned();
        list.append(text::hex_items(self.0.as_slice()).as_str());
        list.append("]");
        list
    }
}

/// A packet that came in.
#[derive(Clone, Debug, PartialEq, Eq)]
pub enum GoveeBlePacket {
    /// A packet that no codec understands.
    Generic(HexBytes),
    SetSceneCode(SetSceneCode),
    SetDevicePower(SetDevicePower),
    SetHumidifierNightlight(SetHumidifierNightlightParams),
    NotifyHumidifierMode(NotifyHumidifierMode),
    SetHumidifierMode(SetHumidifierMode),
    NotifyHumidifierAutoMode(HumidifierAutoMode),
    NotifyHumidifierNightlight(NotifyHumidifierNightlightParams),
    NotifyRiceCookerActiveProgram(NotifyRiceCookerActiveProgram),
    NotifyRiceCookerProgramPhase(NotifyRiceCookerProgramPhase),
    NotifyRiceCookerProgramParams(NotifyRiceCookerProgramParams),
}

/// The types of packets that codecs are registered for.
#[derive(Clone, Copy, Debug, PartialEq, Eq, Structural)]
pub enum PacketType {
    SetHumidifierMode,
    NotifyHumidifierMode,
    HumidifierAutoMode,
    NotifyHumidifierNightlightParams,
    SetHumidifierNightlightParams,
    NotifyRiceCookerActiveProgram,
    NotifyRiceCookerProgramPhase,
    NotifyRiceCookerProgramParams,
    SetSceneCode,
    SetMusicPalette,
    SetDevicePower,
}

impl PacketType {
    /// The name of the type.
    pub open spec fn text(self) -> Seq<char> {
        match self {
            PacketType::SetHumidifierMode => "SetHumidifierMode"@,
            PacketType::NotifyHumidifierMode => "NotifyHumidifierMode"@,
            PacketType::HumidifierAutoMode => "HumidifierAutoMode"@,
            PacketType::NotifyHumidifierNightlightParams => "NotifyHumidifierNightlightParams"@,
            PacketType::SetHumidifierNightlightParams => "SetHumidifierNightlightParams"@,
            PacketType::NotifyRiceCookerActiveProgram => "NotifyRiceCookerActiveProgram"@,
            PacketType::NotifyRiceCookerProgramPhase => "NotifyRiceCookerProgramPhase"@,
            PacketType::NotifyRiceCookerProgramParams => "NotifyRiceCookerProgramParams"@,
            PacketType::SetSceneCode => "SetSceneCode"@,
            PacketType::SetMusicPalette => "SetMusicPalette"@,
            PacketType::SetDevicePower => "SetDevicePower"@,
        }
    }

    /// The name of the type.
    pub fn name(&self) -> (name: &'static str)
        ensures
            name@ == self.text(),
    {
        match self {
            PacketType::SetHumidifierMode => "SetHumidifierMode",
            PacketType::NotifyHumidifierMode => "NotifyHumidifierMode",
            PacketType::HumidifierAutoMode => "HumidifierAutoMode",
            PacketType::NotifyHumidifierNightlightParams => "NotifyHumidifierNightlightParams",
            PacketType::SetHumidifierNightlightParams => "SetHumidifierNightlightParams",
            PacketType::NotifyRiceCookerActiveProgram => "NotifyRiceCookerActiveProgram",
            PacketType::NotifyRiceCookerProgramPhase => "NotifyRiceCookerProgramPhase",
            PacketType::NotifyRiceCookerProgramParams => "NotifyRiceCookerProgramParams",
            PacketType::SetSceneCode => "SetSceneCode",
            PacketType::SetMusicPalette => "SetMusicPalette",
            PacketType::SetDevicePower => "SetDevicePower",
        }
    }

    /// The id of the type, as text.
    pub(crate) fn type_id_text(&self) -> (text: String) {
        match self {
            PacketType::SetHumidifierMode => formatting::type_id_text::<SetHumidifierMode>(),
            PacketType::NotifyHumidifierMode => formatting::type_id_text::<NotifyHumidifierMode>(),
            PacketType::HumidifierAutoMode => formatting::type_id_text::<HumidifierAutoMode>(),
            PacketType::NotifyHumidifierNightlightParams => {
                formatting::type_id_text::<NotifyHumidifierNightlightParams>()
            },
            PacketType::SetHumidifierNightlightParams => {
                formatting::type_id_text::<SetHumidifierNightlightParams>()
            },
            PacketType::NotifyRiceCookerActiveProgram => {
                formatting::type_id_text::<NotifyRiceCookerActiveProgram>()
            },
            PacketType::NotifyRiceCookerProgramPhase => {
                formatting::type_id_text::<NotifyRiceCookerProgramPhase>()
            },
            PacketType::NotifyRiceCookerProgramParams => {
                formatting::type_id_text::<NotifyRiceCookerProgramParams>()
            },
            PacketType::SetSceneCode => formatting::type_id_text::<SetSceneCode>(),
            PacketType::SetMusicPalette => formatting::type_id_text::<SetMusicPalette>(),
            PacketType::SetDevicePower => formatting::type_id_text::<SetDevicePower>(),
        }
    }

    /// A number of the type's own.
    pub open spec fn key_spec(self) -> u8 {
        match self {
            PacketType::SetHumidifierMode => 0,
            PacketType::NotifyHumidifierMode => 1,
            PacketType::HumidifierAutoMode => 2,
            PacketType::NotifyHumidifierNightlightParams => 3,
            PacketType::SetHumidifierNightlightParams => 4,
            PacketType::NotifyRiceCookerActiveProgram => 5,
            PacketType::NotifyRiceCookerProgramPhase => 6,
            PacketType::NotifyRiceCookerProgramParams => 7,
            PacketType::SetSceneCode => 8,
            PacketType::SetMusicPalette => 9,
            PacketType::SetDevicePower => 10,
        }
    }

    /// A number of the type's own.
    pub fn key(&self) -> (key: u8)
        ensures
            key == self.key_spec(),
    {
        match self {
            PacketType::SetHumidifierMode => 0,
            PacketType::NotifyHumidifierMode => 1,
            PacketType::HumidifierAutoMode => 2,
            PacketType::NotifyHumidifierNightlightParams => 3,
            PacketType::SetHumidifierNightlightParams => 4,
            PacketType::NotifyRiceCookerActiveProgram => 5,
            PacketType::NotifyRiceCookerProgramPhase => 6,
            PacketType::NotifyRiceCookerProgramParams => 7,
            PacketType::SetSceneCode => 8,
            PacketType::SetMusicPalette => 9,
            PacketType::SetDevicePower => 10,
        }
    }
}

/// A reference to a packet of any type.
#[derive(Clone, Copy, Debug)]
pub enum AnyPacket<'a> {
    SetHumidifierMode(&'a SetHumidifierMode),
    NotifyHumidifierMode(&'a NotifyHumidifierMode),
    HumidifierAutoMode(&'a HumidifierAutoMode),
    NotifyHumidifierNightlightParams(&'a NotifyHumidifierNightlightParams),
    SetHumidifierNightlightParams(&'a SetHumidifierNightlightParams),
    NotifyRiceCookerActiveProgram(&'a NotifyRiceCookerActiveProgram),
    NotifyRiceCookerProgramPhase(&'a NotifyRiceCookerProgramPhase),
    NotifyRiceCookerProgramParams(&'a NotifyRiceCookerProgramParams),
    SetSceneCode(&'a SetSceneCode),
    SetMusicPalette(&'a SetMusicPalette),
    SetDevicePower(&'a SetDevicePower),
}

impl<'a> AnyPacket<'a> {
    /// The type of the packet.
    pub open spec fn packet_type(self) -> PacketType {
        match self {
            AnyPacket::SetHumidifierMode(_) => PacketType::SetHumidifierMode,
            AnyPacket::NotifyHumidifierMode(_) => PacketType::NotifyHumidifierMode,
            AnyPacket::HumidifierAutoMode(_) => PacketType::HumidifierAutoMode,
            AnyPacket::NotifyHumidifierNightlightParams(_) => {
                PacketType::NotifyHumidifierNightlightParams
            },
            AnyPacket::SetHumidifierNightlightParams(_) => {
                PacketType::SetHumidifierNightlightParams
            },
            AnyPacket::NotifyRiceCookerActiveProgram(_) => {
                PacketType::NotifyRiceCookerActiveProgram
            },
            AnyPacket::NotifyRiceCookerProgramPhase(_) => PacketType::NotifyRiceCookerProgramPhase,
            AnyPacket::NotifyRiceCookerProgramParams(_) => {
                PacketType::NotifyRiceCookerProgramParams
            },
            AnyPacket::SetSceneCode(_) => PacketType::SetSceneCode,
            AnyPacket::SetMusicPalette(_) => PacketType::SetMusicPalette,
            AnyPacket::SetDevicePower(_) => PacketType::SetDevicePower,
        }
    }

    /// Whether the packet is of a size that can be encoded. Only a scene can be
    /// too large.
    pub open spec fn encodable(self) -> bool {
        match self {
            AnyPacket::SetSceneCode(scene) => scene.encodable(),
            _ => true,
        }
    }

    /// Whether the packet is of a size that can be encoded.
    pub fn is_encodable(&self) -> (encodable: bool)
        ensures
            encodable == self.encodable(),
    {
        match self {
            AnyPacket::SetSceneCode(scene) => scene.is_encodable(),
            _ => true,
        }
    }

    /// The frames of the packet.
    pub open spec fn encoding(self) -> Result<Seq<u8>, PacketError> {
        match self {
            AnyPacket::SetHumidifierMode(packet) => packet.encoding(),
            AnyPacket::NotifyHumidifierMode(packet) => packet.encoding(),
            AnyPacket::HumidifierAutoMode(packet) => packet.encoding(),
            AnyPacket::NotifyHumidifierNightlightParams(packet) => packet.encoding(),
            AnyPacket::SetHumidifierNightlightParams(packet) => packet.encoding(),
            AnyPacket::NotifyRiceCookerActiveProgram(packet) => packet.encoding(),
            AnyPacket::NotifyRiceCookerProgramPhase(packet) => packet.encoding(),
            AnyPacket::NotifyRiceCookerProgramParams(packet) => packet.encoding(),
            AnyPacket::SetSceneCode(packet) => packet.encoding(),
            AnyPacket::SetMusicPalette(packet) => packet.encoding(),
            AnyPacket::SetDevicePower(packet) => packet.encoding(),
        }
    }
}

/// What a packet of type `packet_type` finds in the bytes of a frame.
pub open spec fn decoding(packet_type: PacketType, data: Seq<u8>) -> Result<
    GoveeBlePacket,
    PacketError,
> {
    match packet_type {
        PacketType::SetHumidifierMode => SetHumidifierMode::decoding(data),
        PacketType::NotifyHumidifierMode => NotifyHumidifierMode::decoding(data),
        PacketType::HumidifierAutoMode => HumidifierAutoMode::decoding(data),
        PacketType::NotifyHumidifierNightlightParams => {
            NotifyHumidifierNightlightParams::decoding(data)
        },
        PacketType::SetHumidifierNightlightParams => SetHumidifierNightlightParams::decoding(data),
        PacketType::NotifyRiceCookerActiveProgram => NotifyRiceCookerActiveProgram::decoding(data),
        PacketType::NotifyRiceCookerProgramPhase => NotifyRiceCookerProgramPhase::decoding(data),
        PacketType::NotifyRiceCookerProgramParams => NotifyRiceCookerProgramParams::decoding(data),
        PacketType::SetSceneCode => SetSceneCode::decoding(data),
        PacketType::SetMusicPalette => SetMusicPalette::decoding(data),
        PacketType::SetDevicePower => SetDevicePower::decoding(data),
    }
}

/// A type of packets that can be handed to a codec.
pub trait PacketData: Sized + Send + Sync + 'static {
    /// The type that `Self` is.
    spec fn packet_type_spec() -> PacketType;

    /// The packet as one of any type.
    spec fn erased<'a>(&'a self) -> AnyPacket<'a>;

    /// Erasing keeps the type, and no two packets become the same.
    proof fn lemma_erased(a: Self, b: Self)
        ensures
            a.erased().packet_type() == Self::packet_type_spec(),
            a.erased() == b.erased() ==> a == b,
    ;

    /// Every packet of this type comes from erasing one.
    proof fn lemma_onto(any: AnyPacket<'_>) -> (packet: Self)
        requires
            any.packet_type() == Self::packet_type_spec(),
        ensures
            any == packet.erased(),
    ;

    fn packet_type() -> (packet_type: PacketType)
        ensures
            packet_type == Self::packet_type_spec(),
    ;

    fn as_any<'a>(&'a self) -> (any: AnyPacket<'a>)
        ensures
            any == self.erased(),
    ;

    /// The packet of this type that `any` refers to, if it is of this type.
    fn downcast_ref<'a>(any: AnyPacket<'a>) -> (packet: Option<&'a Self>)
        ensures
            match packet {
                Some(packet) => any == packet.erased(),
                None => any.packet_type() != Self::packet_type_spec(),
            },
    ;
}

impl PacketData for SetHumidifierMode {
    open spec fn packet_type_spec() -> PacketType {
        PacketType::SetHumidifierMode
    }

    open spec fn erased<'a>(&'a self) -> AnyPacket<'a> {
        AnyPacket::SetHumidifierMode(self)
    }

    proof fn lemma_erased(a: Self, b: Self) {
    }

    proof fn lemma_onto(any: AnyPacket<'_>) -> (packet: Self) {
        *any->SetHumidifierMode_0
    }

    fn packet_type() -> (packet_type: PacketType) {
        PacketType::SetHumidifierMode
    }

    fn as_any<'a>(&'a self) -> (any: AnyPacket<'a>) {
        AnyPacket::SetHumidifierMode(self)
    }

    fn downcast_ref<'a>(any: AnyPacket<'a>) -> (packet: Option<&'a Self>) {
        match any {
            AnyPacket::SetHumidifierMode(packet) => Some(packet),
            _ => None,
        }
    }
}

impl PacketData for NotifyHumidifierMode {
    open spec fn packet_type_spec() -> PacketType {
        PacketType::NotifyHumidifierMode
    }

    open spec fn erased<'a>(&'a self) -> AnyPacket<'a> {
        AnyPacket::NotifyHumidifierMode(self)
    }

    proof fn lemma_erased(a: Self, b: Self) {
    }

    proof fn lemma_onto(any: AnyPacket<'_>) -> (packet: Self) {
        *any->NotifyHumidifierMode_0
    }

    fn packet_type() -> (packet_type: PacketType) {
        PacketType::NotifyHumidifierMode
    }

    fn as_any<'a>(&'a self) -> (any: AnyPacket<'a>) {
        AnyPacket::NotifyHumidifierMode(self)
    }

    fn downcast_ref<'a>(any: AnyPacket<'a>) -> (packet: Option<&'a Self>) {
        match any {
            AnyPacket::NotifyHumidifierMode(packet) => Some(packet),
            _ => None,
        }
    }
}

impl PacketData for HumidifierAutoMode {
    open spec fn packet_type_spec() -> PacketType {
        PacketType::HumidifierAutoMode
    }

    open spec fn erased<'a>(&'a self) -> AnyPacket<'a> {
        AnyPacket::HumidifierAutoMode(self)
    }

    proof fn lemma_erased(a: Self, b: Self) {
    }

    proof fn lemma_onto(any: AnyPacket<'_>) -> (packet: Self) {
        *any->HumidifierAutoMode_0
    }

    fn packet_type() -> (packet_type: PacketType) {
        PacketType::HumidifierAutoMode
    }

    fn as_any<'a>(&'a self) -> (any: AnyPacket<'a>) {
        AnyPacket::HumidifierAutoMode(self)
    }

    fn downcast_ref<'a>(any: AnyPacket<'a>) -> (packet: Option<&'a Self>) {
        match any {
            AnyPacket::HumidifierAutoMode(packet) => Some(packet),
            _ => None,
        }
    }
}

impl PacketData for NotifyHumidifierNightlightParams {
    open spec fn packet_type_spec() -> PacketType {
        PacketType::NotifyHumidifierNightlightParams
    }

    open spec fn erased<'a>(&'a self) -> AnyPacket<'a> {
        AnyPacket::NotifyHumidifierNightlightParams(self)
    }

    proof fn lemma_erased(a: Self, b: Self) {
    }

    proof fn lemma_onto(any: AnyPacket<'_>) -> (packet: Self) {
        *any->NotifyHumidifierNightlightParams_0
    }

    fn packet_type() -> (packet_type: PacketType) {
        PacketType::NotifyHumidifierNightlightParams
    }

    fn as_any<'a>(&'a self) -> (any: AnyPacket<'a>) {
        AnyPacket::NotifyHumidifierNightlightParams(self)
    }

    fn downcast_ref<'a>(any: AnyPacket<'a>) -> (packet: Option<&'a Self>) {
        match any {
            AnyPacket::NotifyHumidifierNightlightParams(packet) => Some(packet),
            _ => None,
        }
    }
}

impl PacketData for SetHumidifierNightlightParams {
    open spec fn packet_type_spec() -> PacketType {
        PacketType::SetHumidifierNightlightParams
    }

    open spec fn erased<'a>(&'a self) -> AnyPacket<'a> {
        AnyPacket::SetHumidifierNightlightParams(self)
    }

    proof fn lemma_erased(a: Self, b: Self) {
    }

    proof fn lemma_onto(any: AnyPacket<'_>) -> (packet: Self) {
        *any->SetHumidifierNightlightParams_0
    }

    fn packet_type() -> (packet_type: PacketType) {
        PacketType::SetHumidifierNightlightParams
    }

    fn as_any<'a>(&'a self) -> (any: AnyPacket<'a>) {
        AnyPacket::SetHumidifierNightlightParams(self)
    }

    fn downcast_ref<'a>(any: AnyPacket<'a>) -> (packet: Option<&'a Self>) {
        match any {
            AnyPacket::SetHumidifierNightlightParams(packet) => Some(packet),
            _ => None,
        }
    }
}

impl PacketData for NotifyRiceCookerActiveProgram {
    open spec fn packet_type_spec() -> PacketType {
        PacketType::NotifyRiceCookerActiveProgram
    }

    open spec fn erased<'a>(&'a self) -> AnyPacket<'a> {
        AnyPacket::NotifyRiceCookerActiveProgram(self)
    }

    proof fn lemma_erased(a: Self, b: Self) {
    }

    proof fn lemma_onto(any: AnyPacket<'_>) -> (packet: Self) {
        *any->NotifyRiceCookerActiveProgram_0
    }

    fn packet_type() -> (packet_type: PacketType) {
        PacketType::NotifyRiceCookerActiveProgram
    }

    fn as_any<'a>(&'a self) -> (any: AnyPacket<'a>) {
        AnyPacket::NotifyRiceCookerActiveProgram(self)
    }

    fn downcast_ref<'a>(any: AnyPacket<'a>) -> (packet: Option<&'a Self>) {
        match any {
            AnyPacket::NotifyRiceCookerActiveProgram(packet) => Some(packet),
            _ => None,
        }
    }
}

impl PacketData for NotifyRiceCookerProgramPhase {
    open spec fn packet_type_spec() -> PacketType {
        PacketType::NotifyRiceCookerProgramPhase
    }

    open spec fn erased<'a>(&'a self) -> AnyPacket<'a> {
        AnyPacket::NotifyRiceCookerProgramPhase(self)
    }

    proof fn lemma_erased(a: Self, b: Self) {
    }

    proof fn lemma_onto(any: AnyPacket<'_>) -> (packet: Self) {
        *any->NotifyRiceCookerProgramPhase_0
    }

    fn packet_type() -> (packet_type: PacketType) {
        PacketType::NotifyRiceCookerProgramPhase
    }

    fn as_any<'a>(&'a self) -> (any: AnyPacket<'a>) {
        AnyPacket::NotifyRiceCookerProgramPhase(self)
    }

    fn downcast_ref<'a>(any: AnyPacket<'a>) -> (packet: Option<&'a Self>) {
        match any {
            AnyPacket::NotifyRiceCookerProgramPhase(packet) => Some(packet),
            _ => None,
        }
    }
}

impl PacketData for NotifyRiceCookerProgramParams {
    open spec fn packet_type_spec() -> PacketType {
        PacketType::NotifyRiceCookerProgramParams
    }

    open spec fn erased<'a>(&'a self) -> AnyPacket<'a> {
        AnyPacket::NotifyRiceCookerProgramParams(self)
    }

    proof fn lemma_erased(a: Self, b: Self) {
    }

    proof fn lemma_onto(any: AnyPacket<'_>) -> (packet: Self) {
        *any->NotifyRiceCookerProgramParams_0
    }

    fn packet_type() -> (packet_type: PacketType) {
        PacketType::NotifyRiceCookerProgramParams
    }

    fn as_any<'a>(&'a self) -> (any: AnyPacket<'a>) {
        AnyPacket::NotifyRiceCookerProgramParams(self)
    }

    fn downcast_ref<'a>(any: AnyPacket<'a>) -> (packet: Option<&'a Self>) {
        match any {
            AnyPacket::NotifyRiceCookerProgramParams(packet) => Some(packet),
            _ => None,
        }
    }
}

impl PacketData for SetSceneCode {
    open spec fn packet_type_spec() -> PacketType {
        PacketType::SetSceneCode
    }

    open spec fn erased<'a>(&'a self) -> AnyPacket<'a> {
        AnyPacket::SetSceneCode(self)
    }

    proof fn lemma_erased(a: Self, b: Self) {
    }

    proof fn lemma_onto(any: AnyPacket<'_>) -> (packet: Self) {
        *any->SetSceneCode_0
    }

    fn packet_type() -> (packet_type: PacketType) {
        PacketType::SetSceneCode
    }

    fn as_any<'a>(&'a self) -> (any: AnyPacket<'a>) {
        AnyPacket::SetSceneCode(self)
    }

    fn downcast_ref<'a>(any: AnyPacket<'a>) -> (packet: Option<&'a Self>) {
        match any {
            AnyPacket::SetSceneCode(packet) => Some(packet),
            _ => None,
        }
    }
}

impl PacketData for SetMusicPalette {
    open spec fn packet_type_spec() -> PacketType {
        PacketType::SetMusicPalette
    }

    open spec fn erased<'a>(&'a self) -> AnyPacket<'a> {
        AnyPacket::SetMusicPalette(self)
    }

    proof fn lemma_erased(a: Self, b: Self) {
    }

    proof fn lemma_onto(any: AnyPacket<'_>) -> (packet: Self) {
        *any->SetMusicPalette_0
    }

    fn packet_type() -> (packet_type: PacketType) {
        PacketType::SetMusicPalette
    }

    fn as_any<'a>(&'a self) -> (any: AnyPacket<'a>) {
        AnyPacket::SetMusicPalette(self)
    }

    fn downcast_ref<'a>(any: AnyPacket<'a>) -> (packet: Option<&'a Self>) {
        match any {
            AnyPacket::SetMusicPalette(packet) => Some(packet),
            _ => None,
        }
    }
}

impl PacketData for SetDevicePower {
    open spec fn packet_type_spec() -> PacketType {
        PacketType::SetDevicePower
    }

    open spec fn erased<'a>(&'a self) -> AnyPacket<'a> {
        AnyPacket::SetDevicePower(self)
    }

    proof fn lemma_erased(a: Self, b: Self) {
    }

    proof fn lemma_onto(any: AnyPacket<'_>) -> (packet: Self) {
        *any->SetDevicePower_0
    }

    fn packet_type() -> (packet_type: PacketType) {
        PacketType::SetDevicePower
    }

    fn as_any<'a>(&'a self) -> (any: AnyPacket<'a>) {
        AnyPacket::SetDevicePower(self)
    }

    fn downcast_ref<'a>(any: AnyPacket<'a>) -> (packet: Option<&'a Self>) {
        match any {
            AnyPacket::SetDevicePower(packet) => Some(packet),
            _ => None,
        }
    }
}

/// Bytes that are exchanged as Base64 text.
#[derive(Debug)]
pub struct Base64HexBytes(HexBytes);

impl View for Base64HexBytes {
    type V = Seq<u8>;

    closed spec fn view(&self) -> Seq<u8> {
        self.0@
    }
}

/// How many frames `len` bytes make, the last one perhaps incomplete.
pub open spec fn frame_count(len: nat) -> nat {
    (len + 19) / 20
}

/// The `i`-th run of up to 20 bytes.
pub open spec fn nth_frame(data: Seq<u8>, i: int) -> Seq<u8> {
    data.subrange(
        20 * i,
        if 20 * (i + 1) < data.len() {
            20 * (i + 1)
        } else {
            data.len() as int
        },
    )
}

/// What encoding a packet of any type for a SKU gives: the packet's frames, or
/// that the SKU has no codec for it.
pub open spec fn encoded_to(
    sku: Seq<char>,
    packet: AnyPacket<'_>,
    hex: Result<Base64HexBytes, PacketError>,
) -> bool {
    if manager::registered(sku, packet.packet_type()) {
        match hex {
            Ok(hex) => packet.encoding() == Ok::<Seq<u8>, PacketError>(hex@),
            Err(error) => packet.encoding() == Err::<Seq<u8>, PacketError>(error),
        }
    } else {
        hex matches Err(PacketError::NoCodec { sku: named, packet_type }) && named@ == sku
            && packet_type == packet.packet_type()
    }
}

/// What reading a text gives: the bytes that it stands for, just as they are, or
/// why it stands for none. Where padding stands only at the end of the text, the
/// text is the one that the bytes are written as.
pub open spec fn reads_as(encoded: Seq<char>, hex: Result<Base64HexBytes, Base64Error>) -> bool {
    let text = vstd::utf8::encode_utf8(encoded);
    match hex {
        Ok(hex) => {
            &&& base64::base64_bytes(text) == Ok::<Seq<u8>, Base64Error>(hex@)
            &&& base64::padded_at_the_end(text) && hex@.len() <= usize::MAX / 512
                ==> base64::base64_text(hex@) == encoded
        },
        Err(error) => base64::base64_bytes(text) == Err::<Seq<u8>, Base64Error>(error),
    }
}

/// What writing bytes gives: a text for each frame, which the frame can be read
/// from.
pub open spec fn writes_as(data: Seq<u8>, texts: Seq<String>) -> bool {
    &&& texts.len() == frame_count(data.len())
    &&& forall|i: int|
        0 <= i < texts.len() ==> {
            &&& (#[trigger] texts[i])@ == base64::base64_text(nth_frame(data, i))
            &&& base64::base64_bytes(vstd::utf8::encode_utf8(texts[i]@)) == Ok::<
                Seq<u8>,
                Base64Error,
            >(nth_frame(data, i))
        }
}

impl Base64HexBytes {
    /// The bytes as they are.
    pub fn new(bytes: Vec<u8>) -> (hex: Self)
        ensures
            hex@ == bytes@,
    {
        Base64HexBytes(HexBytes::new(bytes))
    }

    pub fn as_slice(&self) -> (bytes: &[u8])
        ensures
            bytes@ == self@,
    {
        self.0.as_slice()
    }

    /// The frame that carries `bytes`.
    pub fn with_bytes(bytes: Vec<u8>) -> (hex: Self)
        ensures
            hex@ == frame::framed(bytes@),
    {
        Self::new(frame::finish(bytes))
    }

    /// Decodes the bytes as a packet of a SKU.
    pub fn decode_for_sku(&self, sku: &str) -> (packet: GoveeBlePacket)
        ensures
            manager::decodes_to(sku@, self@, packet),
    {
        let mut manager = PacketManager::new();
        manager.decode_for_sku(sku, self.0.as_slice())
    }

    /// Encodes a packet for a SKU.
    pub fn encode_for_sku<T: PacketData>(sku: &str, value: &T) -> (hex: Result<Self, PacketError>)
        requires
            manager::encodable_for(sku@, value.erased()),
        ensures
            encoded_to(sku@, value.erased(), hex),
    {
        let mut manager = PacketManager::new();
        match manager.encode_for_sku(sku, value) {
            Ok(bytes) => Ok(Self::new(bytes)),
            Err(error) => Err(error),
        }
    }

    /// As [`Base64HexBytes::encode_for_sku`], for any packet: `None` where it
    /// is too large to be encoded.
    pub fn checked_encode_for_sku<T: PacketData>(sku: &str, value: &T) -> (hex: Option<
        Result<Self, PacketError>,
    >)
        ensures
            match hex {
                Some(hex) => manager::encodable_for(sku@, value.erased()) && encoded_to(
                    sku@,
                    value.erased(),
                    hex,
                ),
                None => !manager::encodable_for(sku@, value.erased()),
            },
    {
        let mut manager = PacketManager::new();
        match manager.checked_encode_for_sku(sku, value) {
            Some(Ok(bytes)) => Some(Ok(Self::new(bytes))),
            Some(Err(error)) => Some(Err(error)),
            None => None,
        }
    }

    /// Reads the bytes from their Base64 text.
    pub fn from_base64(encoded: &str) -> (hex: Result<Self, Base64Error>)
        requires
            vstd::utf8::encode_utf8(encoded@).len() <= usize::MAX / 8,
        ensures
            reads_as(encoded@, hex),
    {
        match base64::base64_decode(encoded.as_bytes()) {
            Ok(bytes) => {
                proof {
                    vstd::utf8::encode_utf8_decode_utf8(encoded@);
                    vstd::utf8::encode_utf8_decode_utf8(base64::base64_text(bytes@));
                }
                Ok(Self::new(bytes))
            },
            Err(error) => Err(error),
        }
    }

    /// The frames in Base64, one text for each. The text of a frame gives the
    /// frame's bytes back.
    pub fn base64(&self) -> (texts: Vec<String>)
        ensures
            writes_as(self@, texts@),
    {
        let data = self.0.as_slice();
        let mut texts: Vec<String> = Vec::new();
        let mut start: usize = 0;
        while start < data.len()
            invariant
                data@ == self@,
                start == 20 * texts@.len() || (start == data@.len() && texts@.len() == frame_count(
                    data@.len(),
                )),
                start <= data@.len(),
                texts@.len() <= frame_count(data@.len()),
                forall|i: int|
                    0 <= i < texts@.len() ==> {
                        &&& (#[trigger] texts@[i])@ == base64::base64_text(nth_frame(self@, i))
                        &&& base64::base64_bytes(vstd::utf8::encode_utf8(texts@[i]@)) == Ok::<
                            Seq<u8>,
                            Base64Error,
                        >(nth_frame(self@, i))
                    },
            decreases data@.len() - start,
        {
            let end = if data.len() - start > frame::FRAME_LEN {
                start + frame::FRAME_LEN
            } else {
                data.len()
            };
            assert(data@.subrange(start as int, end as int) =~= nth_frame(
                self@,
                texts@.len() as int,
            ));
            texts.push(base64::base64_encode(&data[start..end]));
            start = end;
        }
        texts
    }
}

/// A text of up to one frame that is read and written again is the same text,
/// unless padded groups were joined in it.
pub proof fn law_read_text_is_written_again(
    encoded: Seq<char>,
    hex: Base64HexBytes,
    texts: Seq<String>,
)
    requires
        base64::padded_at_the_end(vstd::utf8::encode_utf8(encoded)),
        reads_as(encoded, Ok(hex)),
        1 <= hex@.len() <= 20,
        writes_as(hex@, texts),
    ensures
        texts.len() == 1,
        texts[0]@ == encoded,
{
    assert(nth_frame(hex@, 0) =~= hex@);
}

/// A text that bytes of up to one frame were written as reads as those bytes.
pub proof fn law_written_text_is_read_again(
    data: Seq<u8>,
    texts: Seq<String>,
    hex: Result<Base64HexBytes, Base64Error>,
)
    requires
        1 <= data.len() <= 20,
        writes_as(data, texts),
        reads_as(texts[0]@, hex),
    ensures
        hex matches Ok(bytes) && bytes@ == data,
{
    assert(nth_frame(data, 0) =~= data);
    assert(texts[0]@ == base64::base64_text(nth_frame(data, 0)));
}

/// Whatever is encoded is whole frames, each with a right checksum, and each
/// starts with the byte of a command, a report or a fragment.
pub proof fn law_encodings_are_sealed_frames(packet: AnyPacket<'_>)
    ensures
        packet.encoding() matches Ok(bytes) ==> {
            &&& bytes.len() > 0
            &&& bytes.len() == 20 * frame_count(bytes.len())
            &&& forall|i: int|
                0 <= i < frame_count(bytes.len()) ==> {
                    let frame = #[trigger] nth_frame(bytes, i);
                    &&& frame::is_sealed(frame)
                    &&& frame[0] == 0x33 || frame[0] == 0xaa || frame[0] == 0xa3
                }
        },
{
    if packet.encoding() is Ok {
        let bytes = packet.encoding()->Ok_0;
        match packet {
            AnyPacket::SetHumidifierMode(value) => {
                lemma_layout_is_one_frame(SetHumidifierMode::rules(), value.fields());
            },
            AnyPacket::NotifyHumidifierMode(value) => {
                lemma_layout_is_one_frame(NotifyHumidifierMode::rules(), value.fields());
            },
            AnyPacket::HumidifierAutoMode(value) => {
                lemma_layout_is_one_frame(HumidifierAutoMode::rules(), value.fields());
            },
            AnyPacket::NotifyHumidifierNightlightParams(value) => {
                lemma_layout_is_one_frame(NotifyHumidifierNightlightParams::rules(), value.fields());
            },
            AnyPacket::SetHumidifierNightlightParams(value) => {
                lemma_layout_is_one_frame(SetHumidifierNightlightParams::rules(), value.fields());
            },
            AnyPacket::SetDevicePower(value) => {
                lemma_layout_is_one_frame(SetDevicePower::rules(), value.fields());
            },
            AnyPacket::SetSceneCode(value) => {
                let param = base64::base64_bytes(value.param_text())->Ok_0;
                scene::law_scene_frames_are_sealed(value.code(), param);
                assert forall|i: int| 0 <= i < frame_count(bytes.len()) implies {
                    let frame = #[trigger] nth_frame(bytes, i);
                    &&& frame::is_sealed(frame)
                    &&& frame[0] == 0x33 || frame[0] == 0xaa || frame[0] == 0xa3
                } by {
                    assert(nth_frame(bytes, i) == bytes.subrange(20 * i, 20 * i + 20));
                }
            },
            AnyPacket::SetMusicPalette(value) => {
                music::law_palette_is_three_sealed_frames(*value);
                assert(nth_frame(bytes, 0) =~= bytes.subrange(0, 20));
                assert(nth_frame(bytes, 1) =~= bytes.subrange(20, 40));
                assert(nth_frame(bytes, 2) =~= bytes.subrange(40, 60));
            },
            _ => {},
        }
    }
}

/// What a layout that starts with a constant byte forms makes one sealed frame
/// with that byte in front.
proof fn lemma_layout_is_one_frame(rules: Seq<layout::Rule>, fields: Seq<u8>)
    requires
        1 <= rules.len() <= 19,
        rules[0] is Byte,
    ensures
        ({
            let bytes = frame::framed(layout::formed(rules, fields));
            &&& frame_count(bytes.len()) == 1
            &&& bytes.len() == 20
            &&& nth_frame(bytes, 0) == bytes
            &&& frame::is_sealed(bytes)
            &&& bytes[0] == rules[0]->Byte_0
        }),
{
    let content = layout::formed(rules, fields);
    layout::lemma_formed_len(rules, fields);
    frame::law_finish_seals(content);
    assert(nth_frame(frame::framed(content), 0) =~= frame::framed(content));
}

/// The frames of some bytes, in a row, are the bytes.
pub proof fn law_frames_join(data: Seq<u8>)
    ensures
        forall|k: int|
            0 <= k < data.len() ==> 0 <= k / 20 < frame_count(data.len()) && nth_frame(
                data,
                k / 20,
            )[k % 20] == #[trigger] data[k],
{
}

/// What a packet of any type is encoded to is what it is encoded to as a packet of
/// its own type, and only a scene can be too large for it.
pub proof fn law_any_packet(packet: AnyPacket<'_>)
    ensures
        packet matches AnyPacket::SetHumidifierMode(value) ==> {
            &&& packet.packet_type() == PacketType::SetHumidifierMode
            &&& packet.encoding() == value.encoding()
            &&& packet.encodable() == true
        },
        packet matches AnyPacket::NotifyHumidifierMode(value) ==> {
            &&& packet.packet_type() == PacketType::NotifyHumidifierMode
            &&& packet.encoding() == value.encoding()
            &&& packet.encodable() == true
        },
        packet matches AnyPacket::HumidifierAutoMode(value) ==> {
            &&& packet.packet_type() == PacketType::HumidifierAutoMode
            &&& packet.encoding() == value.encoding()
            &&& packet.encodable() == true
        },
        packet matches AnyPacket::NotifyHumidifierNightlightParams(value) ==> {
            &&& packet.packet_type() == PacketType::NotifyHumidifierNightlightParams
            &&& packet.encoding() == value.encoding()
            &&& packet.encodable() == true
        },
        packet matches AnyPacket::SetHumidifierNightlightParams(value) ==> {
            &&& packet.packet_type() == PacketType::SetHumidifierNightlightParams
            &&& packet.encoding() == value.encoding()
            &&& packet.encodable() == true
        },
        packet matches AnyPacket::NotifyRiceCookerActiveProgram(value) ==> {
            &&& packet.packet_type() == PacketType::NotifyRiceCookerActiveProgram
            &&& packet.encoding() == value.encoding()
            &&& packet.encodable() == true
        },
        packet matches AnyPacket::NotifyRiceCookerProgramPhase(value) ==> {
            &&& packet.packet_type() == PacketType::NotifyRiceCookerProgramPhase
            &&& packet.encoding() == value.encoding()
            &&& packet.encodable() == true
        },
        packet matches AnyPacket::NotifyRiceCookerProgramParams(value) ==> {
            &&& packet.packet_type() == PacketType::NotifyRiceCookerProgramParams
            &&& packet.encoding() == value.encoding()
            &&& packet.encodable() == true
        },
        packet matches AnyPacket::SetSceneCode(value) ==> {
            &&& packet.packet_type() == PacketType::SetSceneCode
            &&& packet.encoding() == value.encoding()
            &&& packet.encodable() == value.encodable()
        },
        packet matches AnyPacket::SetMusicPalette(value) ==> {
            &&& packet.packet_type() == PacketType::SetMusicPalette
            &&& packet.encoding() == value.encoding()
            &&& packet.encodable() == true
        },
        packet matches AnyPacket::SetDevicePower(value) ==> {
            &&& packet.packet_type() == PacketType::SetDevicePower
            &&& packet.encoding() == value.encoding()
            &&& packet.encodable() == true
        },
{
}

/// Bytes are decoded as a type by the decoder of that type.
pub proof fn law_decoders(data: Seq<u8>)
    ensures
        decoding(PacketType::SetHumidifierMode, data) == SetHumidifierMode::decoding(data),
        decoding(PacketType::NotifyHumidifierMode, data) == NotifyHumidifierMode::decoding(data),
        decoding(PacketType::HumidifierAutoMode, data) == HumidifierAutoMode::decoding(data),
        decoding(PacketType::NotifyHumidifierNightlightParams, data) == NotifyHumidifierNightlightParams::decoding(data),
        decoding(PacketType::SetHumidifierNightlightParams, data) == SetHumidifierNightlightParams::decoding(data),
        decoding(PacketType::NotifyRiceCookerActiveProgram, data) == NotifyRiceCookerActiveProgram::decoding(data),
        decoding(PacketType::NotifyRiceCookerProgramPhase, data) == NotifyRiceCookerProgramPhase::decoding(data),
        decoding(PacketType::NotifyRiceCookerProgramParams, data) == NotifyRiceCookerProgramParams::decoding(data),
        decoding(PacketType::SetSceneCode, data) == SetSceneCode::decoding(data),
        decoding(PacketType::SetMusicPalette, data) == SetMusicPalette::decoding(data),
        decoding(PacketType::SetDevicePower, data) == SetDevicePower::decoding(data),
{
}

/// A packet that is handed to a codec keeps its value and its type.
pub proof fn law_erasing(
    a: SetHumidifierMode,
    b: NotifyHumidifierMode,
    c: HumidifierAutoMode,
    d: NotifyHumidifierNightlightParams,
    e: SetHumidifierNightlightParams,
    f: NotifyRiceCookerActiveProgram,
    g: NotifyRiceCookerProgramPhase,
    h: NotifyRiceCookerProgramParams,
    i: SetSceneCode,
    j: SetMusicPalette,
    k: SetDevicePower,
)
    ensures
        a.erased() == AnyPacket::SetHumidifierMode(&a),
        SetHumidifierMode::packet_type_spec() == PacketType::SetHumidifierMode,
        b.erased() == AnyPacket::NotifyHumidifierMode(&b),
        NotifyHumidifierMode::packet_type_spec() == PacketType::NotifyHumidifierMode,
        c.erased() == AnyPacket::HumidifierAutoMode(&c),
        HumidifierAutoMode::packet_type_spec() == PacketType::HumidifierAutoMode,
        d.erased() == AnyPacket::NotifyHumidifierNightlightParams(&d),
        NotifyHumidifierNightlightParams::packet_type_spec() == PacketType::NotifyHumidifierNightlightParams,
        e.erased() == AnyPacket::SetHumidifierNightlightParams(&e),
        SetHumidifierNightlightParams::packet_type_spec() == PacketType::SetHumidifierNightlightParams,
        f.erased() == AnyPacket::NotifyRiceCookerActiveProgram(&f),
        NotifyRiceCookerActiveProgram::packet_type_spec() == PacketType::NotifyRiceCookerActiveProgram,
        g.erased() == AnyPacket::NotifyRiceCookerProgramPhase(&g),
        NotifyRiceCookerProgramPhase::packet_type_spec() == PacketType::NotifyRiceCookerProgramPhase,
        h.erased() == AnyPacket::NotifyRiceCookerProgramParams(&h),
        NotifyRiceCookerProgramParams::packet_type_spec() == PacketType::NotifyRiceCookerProgramParams,
        i.erased() == AnyPacket::SetSceneCode(&i),
        SetSceneCode::packet_type_spec() == PacketType::SetSceneCode,
        j.erased() == AnyPacket::SetMusicPalette(&j),
        SetMusicPalette::packet_type_spec() == PacketType::SetMusicPalette,
        k.erased() == AnyPacket::SetDevicePower(&k),
        SetDevicePower::packet_type_spec() == PacketType::SetDevicePower,
{
}

/// No two types of packets have the same number.
pub proof fn law_keys_differ(a: PacketType, b: PacketType)
    ensures
        a.key_spec() == b.key_spec() <==> a == b,
{
}

/// The names of the types.
pub proof fn law_type_names()
    ensures
        PacketType::SetHumidifierMode.text() == "SetHumidifierMode"@,
        PacketType::NotifyHumidifierMode.text() == "NotifyHumidifierMode"@,
        PacketType::HumidifierAutoMode.text() == "HumidifierAutoMode"@,
        PacketType::NotifyHumidifierNightlightParams.text() == "NotifyHumidifierNightlightParams"@,
        PacketType::SetHumidifierNightlightParams.text() == "SetHumidifierNightlightParams"@,
        PacketType::NotifyRiceCookerActiveProgram.text() == "NotifyRiceCookerActiveProgram"@,
        PacketType::NotifyRiceCookerProgramPhase.text() == "NotifyRiceCookerProgramPhase"@,
        PacketType::NotifyRiceCookerProgramParams.text() == "NotifyRiceCookerProgramParams"@,
        PacketType::SetSceneCode.text() == "SetSceneCode"@,
        PacketType::SetMusicPalette.text() == "SetMusicPalette"@,
        PacketType::SetDevicePower.text() == "SetDevicePower"@,
{
}

/// Bytes are split into frames of 20, the last of which may be shorter but is
/// never empty.
pub proof fn law_frames_are_full(data: Seq<u8>, i: int)
    requires
        0 <= i < frame_count(data.len()),
    ensures
        frame_count(data.len()) == (data.len() + 19) / 20,
        i + 1 < frame_count(data.len()) ==> nth_frame(data, i) == data.subrange(20 * i, 20 * i + 20),
        i + 1 == frame_count(data.len()) ==> nth_frame(data, i) == data.subrange(
            20 * i,
            data.len() as int,
        ),
        1 <= nth_frame(data, i).len() <= 20,
{
}

/// Bytes are written as one Base64 text for each 20 of them, in order, and one for
/// what is left.
pub proof fn law_written_texts(data: Seq<u8>, texts: Seq<String>)
    requires
        writes_as(data, texts),
    ensures
        texts.len() == (data.len() + 19) / 20,
        forall|i: int|
            0 <= i < texts.len() ==> {
                let end = if 20 * i + 20 < data.len() {
                    20 * i + 20
                } else {
                    data.len() as int
                };
                (#[trigger] texts[i])@ == base64::base64_text(data.subrange(20 * i, end))
            },
{
}

/// A text is read as just the bytes that it stands for in Base64, and one that is
/// not Base64 is the error.
pub proof fn law_read_bytes(encoded: Seq<char>, hex: Result<Base64HexBytes, Base64Error>)
    requires
        reads_as(encoded, hex),
    ensures
        match base64::base64_bytes(vstd::utf8::encode_utf8(encoded)) {
            Ok(bytes) => hex matches Ok(hex) && hex@ == bytes,
            Err(error) => hex == Err::<Base64HexBytes, Base64Error>(error),
        },
{
}

/// What is encoded for a SKU is the packet's own encoding where the SKU has the
/// type, and otherwise an error that names both.
pub proof fn law_encoded_to(
    sku: Seq<char>,
    packet: AnyPacket<'_>,
    hex: Result<Base64HexBytes, PacketError>,
)
    requires
        encoded_to(sku, packet, hex),
    ensures
        manager::registered(sku, packet.packet_type()) ==> match packet.encoding() {
            Ok(bytes) => hex matches Ok(hex) && hex@ == bytes,
            Err(error) => hex == Err::<Base64HexBytes, PacketError>(error),
        },
        !manager::registered(sku, packet.packet_type()) ==> (hex matches Err(
            PacketError::NoCodec { sku: named, packet_type },
        ) && named@ == sku && packet_type == packet.packet_type()),
{
}

} // verus!
