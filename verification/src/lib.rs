//! Bluetooth LE packets of Govee devices: how they are laid out in frames, how
//! they are encoded and decoded for the SKU of a device, and how they are
//! exchanged as Base64 text.
pub mod base64;
pub mod error;
pub mod formatting;
pub mod frame;
pub mod humidifier;
pub mod layout;
pub mod manager;
pub mod music;
pub mod packet;
pub mod param;
pub mod power;
pub mod rice_cooker;
pub mod scene;
pub mod text;
pub mod undoc;

pub use crate::base64::{Base64Error, Base64ErrorKind};
pub use crate::error::PacketError;
pub use crate::humidifier::{
    HumidifierAutoMode, NotifyHumidifierMode, NotifyHumidifierNightlightParams, SetHumidifierMode,
    SetHumidifierNightlightParams, TargetHumidity,
};
pub use crate::manager::{PacketCodec, PacketManager};
pub use crate::music::SetMusicPalette;
pub use crate::packet::{
    AnyPacket, Base64HexBytes, GoveeBlePacket, HexBytes, PacketData, PacketType,
};
pub use crate::param::DecodePacketParam;
pub use crate::power::SetDevicePower;
pub use crate::rice_cooker::{
    rice_cooker_program_id, rice_cooker_program_name, rice_cooker_program_options,
    rice_cooker_set_program_command, NotifyRiceCookerActiveProgram, NotifyRiceCookerProgramParams,
    NotifyRiceCookerProgramPhase,
};
pub use crate::scene::SetSceneCode;
pub use crate::undoc::UndocCommand;
