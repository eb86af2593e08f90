//! Why a packet could not be encoded or decoded.
use crate::base64::Base64Error;
use crate::packet::PacketType;
use crate::text;
use vstd::prelude::*;
use vstd::string::StringExecFns;

verus! {

/// Why a packet could not be encoded or decoded.
#[derive(Clone, Debug, PartialEq, Eq)]
pub enum PacketError {
    /// No codec of this SKU takes packets of this type.
    NoCodec { sku: String, packet_type: PacketType },
    /// A codec was handed a packet of a type other than its own.
    WrongType { packet_type: PacketType },
    /// A constant byte of the packet is another one, or missing.
    UnexpectedByte { expected: u8, found: Option<u8> },
    /// The packet ends before its fields do.
    Eof,
    /// A byte after the last field is not zero.
    NonzeroPadding,
    /// Packets of this type are never decoded.
    NoDecoder { packet_type: PacketType },
    /// Packets of this type are only ever sent by devices.
    NoEncoder { packet_type: PacketType },
    /// A music palette with too few or too many colours.
    PaletteSize { colors: usize },
    /// A sensitivity above one hundred percent.
    Sensitivity { sensitivity: u8 },
    /// A scene parameter that is not Base64.
    Base64 { error: Base64Error },
    /// A report that is not one frame long.
    ReportLength,
    /// A report that does not start with the report marker.
    ReportMarker,
    /// A report whose checksum is wrong.
    ReportChecksum,
    /// A report of another family than the active program's.
    NotActiveProgram,
    /// A report of another family than the program phase's.
    NotProgramPhase,
    /// A report of another family than the programs'.
    NotProgram,
    /// A program report on program zero, which has no parameters.
    ProgramZero,
    /// A report with nonzero bytes behind its fields.
    TrailingData,
}

/// An optional byte in words.
pub open spec fn found_text(found: Option<u8>) -> Seq<char> {
    match found {
        Some(byte) => "Some("@ + text::decimal_text(byte as nat) + ")"@,
        None => "None"@,
    }
}

impl PacketError {
    /// The error in words, where `type_id` is the text of the id of the type that
    /// it is about. Only an error about a codec has that id in it.
    pub open spec fn text(self, type_id: Seq<char>) -> Seq<char> {
        match self {
            PacketError::NoCodec { sku, .. } => "sku "@ + sku@ + " has no codec for type "@
                + type_id,
            PacketError::WrongType { .. } => "cannot downcast to "@ + type_id
                + " in PacketCodec encoder"@,
            PacketError::UnexpectedByte { expected, found } => "expected "@ + text::decimal_text(
                expected as nat,
            ) + " but got "@ + found_text(found),
            PacketError::Eof => "EOF"@,
            PacketError::NonzeroPadding => "Condition failed: `data [0] == 0`"@,
            PacketError::NoDecoder { packet_type } => packet_type.text()
                + "::decode is not implemented"@,
            PacketError::NoEncoder { packet_type } => packet_type.text()
                + " is a device report; no encoder"@,
            PacketError::PaletteSize { colors } => "music palette wants 1..=7 colours, got "@
                + text::decimal_text(colors as nat),
            PacketError::Sensitivity { sensitivity } => "sensitivity is a percentage, got "@
                + text::decimal_text(sensitivity as nat),
            PacketError::Base64 { error } => error.text(),
            PacketError::ReportLength => "rice cooker reports are 20 bytes"@,
            PacketError::ReportMarker => "not an 0xaa report frame"@,
            PacketError::ReportChecksum => "xor checksum mismatch"@,
            PacketError::NotActiveProgram => "not an active-program frame"@,
            PacketError::NotProgramPhase => "not a program-phase frame"@,
            PacketError::NotProgram => "not a program frame"@,
            PacketError::ProgramZero => "program 0 is the active-program frame"@,
            PacketError::TrailingData => "unexpected trailing data"@,
        }
    }

    /// The error in words. What the id of a type looks like is up to the
    /// compiler.
    pub fn message(&self) -> (message: String)
        ensures
            exists|type_id: Seq<char>| message@ == #[trigger] self.text(type_id),
    {
        let type_id = match self {
            PacketError::NoCodec { packet_type, .. } => packet_type.type_id_text(),
            PacketError::WrongType { packet_type } => packet_type.type_id_text(),
            _ => String::new(),
        };
        self.message_with(type_id.as_str())
    }

    /// The error in words, with `type_id` for the id of the type that it is
    /// about.
    pub fn message_with(&self, type_id: &str) -> (message: String)
        ensures
            message@ == self.text(type_id@),
    {
        match self {
            PacketError::NoCodec { sku, .. } => {
                let mut message = "sku ".to_owned();
                message.append(sku.as_str());
                message.append(" has no codec for type ");
                message.append(type_id);
                message
            },
            PacketError::WrongType { .. } => {
                let mut message = "cannot downcast to ".to_owned();
                message.append(type_id);
                message.append(" in PacketCodec encoder");
                message
            },
            PacketError::UnexpectedByte { expected, found } => {
                let mut message = "expected ".to_owned();
                message.append(text::decimal(*expected as u64).as_str());
                message.append(" but got ");
                message.append(found_message(*found).as_str());
                message
            },
            PacketError::Eof => "EOF".to_owned(),
            PacketError::NonzeroPadding => "Condition failed: `data [0] == 0`".to_owned(),
            PacketError::NoDecoder { packet_type } => {
                let mut message = packet_type.name().to_owned();
                message.append("::decode is not implemented");
                message
            },
            PacketError::NoEncoder { packet_type } => {
                let mut message = packet_type.name().to_owned();
                message.append(" is a device report; no encoder");
                message
            },
            PacketError::PaletteSize { colors } => {
                let mut message = "music palette wants 1..=7 colours, got ".to_owned();
                message.append(text::decimal(*colors as u64).as_str());
                message
            },
            PacketError::Sensitivity { sensitivity } => {
                let mut message = "sensitivity is a percentage, got ".to_owned();
                message.append(text::decimal(*sensitivity as u64).as_str());
                message
            },
            PacketError::Base64 { error } => error.message(),
            PacketError::ReportLength => "rice cooker reports are 20 bytes".to_owned(),
            PacketError::ReportMarker => "not an 0xaa report frame".to_owned(),
            PacketError::ReportChecksum => "xor checksum mismatch".to_owned(),
            PacketError::NotActiveProgram => "not an active-program frame".to_owned(),
            PacketError::NotProgramPhase => "not a program-phase frame".to_owned(),
            PacketError::NotProgram => "not a program frame".to_owned(),
            PacketError::ProgramZero => "program 0 is the active-program frame".to_owned(),
            PacketError::TrailingData => "unexpected trailing data".to_owned(),
        }
    }
}

fn found_message(found: Option<u8>) -> (message: String)
    ensures
        message@ == found_text(found),
{
    match found {
        Some(byte) => {
            let mut message = "Some(".to_owned();
            message.append(text::decimal(byte as u64).as_str());
            message.append(")");
            message
        },
        None => "None".to_owned(),
    }
}

/// The errors in words. Those about a codec have the id of a type in them, and no
/// other depends on it.
pub proof fn law_error_texts(error: PacketError, type_id: Seq<char>)
    ensures
        error matches PacketError::NoCodec { sku, .. } ==> error.text(type_id) == "sku "@ + sku@
            + " has no codec for type "@ + type_id,
        error is WrongType ==> error.text(type_id) == "cannot downcast to "@ + type_id
            + " in PacketCodec encoder"@,
        error matches PacketError::UnexpectedByte { expected, found: Some(byte) } ==> error.text(
            type_id,
        ) == "expected "@ + text::decimal_text(expected as nat) + " but got "@ + ("Some("@
            + text::decimal_text(byte as nat) + ")"@),
        error matches PacketError::UnexpectedByte { expected, found: None } ==> error.text(type_id)
            == "expected "@ + text::decimal_text(expected as nat) + " but got "@ + "None"@,
        error is Eof ==> error.text(type_id) == "EOF"@,
        error is NonzeroPadding ==> error.text(type_id) == "Condition failed: `data [0] == 0`"@,
        error matches PacketError::NoDecoder { packet_type } ==> error.text(type_id)
            == packet_type.text() + "::decode is not implemented"@,
        error matches PacketError::NoEncoder { packet_type } ==> error.text(type_id)
            == packet_type.text() + " is a device report; no encoder"@,
        error matches PacketError::PaletteSize { colors } ==> error.text(type_id)
            == "music palette wants 1..=7 colours, got "@ + text::decimal_text(colors as nat),
        error matches PacketError::Sensitivity { sensitivity } ==> error.text(type_id)
            == "sensitivity is a percentage, got "@ + text::decimal_text(sensitivity as nat),
        error matches PacketError::Base64 { error: inner } ==> error.text(type_id) == inner.text(),
        error is ReportLength ==> error.text(type_id) == "rice cooker reports are 20 bytes"@,
        error is ReportMarker ==> error.text(type_id) == "not an 0xaa report frame"@,
        error is ReportChecksum ==> error.text(type_id) == "xor checksum mismatch"@,
        error is NotActiveProgram ==> error.text(type_id) == "not an active-program frame"@,
        error is NotProgramPhase ==> error.text(type_id) == "not a program-phase frame"@,
        error is NotProgram ==> error.text(type_id) == "not a program frame"@,
        error is ProgramZero ==> error.text(type_id) == "program 0 is the active-program frame"@,
        error is TrailingData ==> error.text(type_id) == "unexpected trailing data"@,
{
}

} // verus!
