//! Rice cookers: the reports they send and the command that starts a program.
use crate::error::PacketError;
use crate::frame;
use crate::layout;
use crate::packet::{Base64HexBytes, GoveeBlePacket, PacketType};
use crate::text;
use vstd::prelude::*;
use vstd::string::StringExecFns;

verus! {

/// What a report says: everything between its marker and its checksum. A
/// report is one frame, starts with the marker and has a right checksum.
pub open spec fn report_body(data: Seq<u8>) -> Result<Seq<u8>, PacketError> {
    if data.len() != frame::FRAME_LEN {
        Err(PacketError::ReportLength)
    } else if data[0] != 0xaa {
        Err(PacketError::ReportMarker)
    } else if !frame::is_sealed(data) {
        Err(PacketError::ReportChecksum)
    } else {
        Ok(data.subrange(1, 19))
    }
}

/// Checks a report frame and returns its body: everything between the marker
/// and the checksum.
pub fn rice_cooker_report_body(data: &[u8]) -> (body: Result<&[u8], PacketError>)
    ensures
        match body {
            Ok(body) => report_body(data@) == Ok::<Seq<u8>, PacketError>(body@),
            Err(error) => report_body(data@) == Err::<Seq<u8>, PacketError>(error),
        },
{
    if data.len() != frame::FRAME_LEN {
        return Err(PacketError::ReportLength);
    }
    if data[0] != 0xaa {
        return Err(PacketError::ReportMarker);
    }
    let content = &data[0..19];
    assert(content@ =~= data@.take(19));
    if frame::calculate_checksum(content) != data[19] {
        return Err(PacketError::ReportChecksum);
    }
    Ok(&data[1..19])
}

/// `aa 05 00 <program>`: the program slot that is active, zero when the cooker
/// is in standby.
#[derive(Clone, Copy, Debug, PartialEq, Eq, Structural)]
pub struct NotifyRiceCookerActiveProgram {
    pub program: u8,
}

impl Default for NotifyRiceCookerActiveProgram {
    fn default() -> (report: Self)
        ensures
            report == (NotifyRiceCookerActiveProgram { program: 0 }),
    {
        NotifyRiceCookerActiveProgram { program: 0 }
    }
}

impl NotifyRiceCookerActiveProgram {
    pub open spec fn encoding(self) -> Result<Seq<u8>, PacketError> {
        Err(PacketError::NoEncoder { packet_type: PacketType::NotifyRiceCookerActiveProgram })
    }

    /// Only cookers send this.
    pub fn encode(&self) -> (bytes: Result<Vec<u8>, PacketError>)
        ensures
            frame::bytes_of(bytes) == self.encoding(),
    {
        Err(PacketError::NoEncoder { packet_type: PacketType::NotifyRiceCookerActiveProgram })
    }

    pub open spec fn decoding(data: Seq<u8>) -> Result<GoveeBlePacket, PacketError> {
        match report_body(data) {
            Err(error) => Err(error),
            Ok(body) => if !(body[0] == 0x05 && body[1] == 0x00) {
                Err(PacketError::NotActiveProgram)
            } else if !frame::all_zero(body.skip(3)) {
                Err(PacketError::TrailingData)
            } else {
                Ok(
                    GoveeBlePacket::NotifyRiceCookerActiveProgram(
                        NotifyRiceCookerActiveProgram { program: body[2] },
                    ),
                )
            },
        }
    }

    pub fn decode(data: &[u8]) -> (packet: Result<GoveeBlePacket, PacketError>)
        ensures
            packet == Self::decoding(data@),
    {
        let body = rice_cooker_report_body(data)?;
        if !(body[0] == 0x05 && body[1] == 0x00) {
            return Err(PacketError::NotActiveProgram);
        }
        if !layout::is_zero(&body[3..body.len()]) {
            return Err(PacketError::TrailingData);
        }
        Ok(
            GoveeBlePacket::NotifyRiceCookerActiveProgram(
                NotifyRiceCookerActiveProgram { program: body[2] },
            ),
        )
    }
}

/// `aa 19 <program> <phase>`: the program, and the phase that it is in. What
/// the phases mean is not known.
#[derive(Clone, Copy, Debug, PartialEq, Eq, Structural)]
pub struct NotifyRiceCookerProgramPhase {
    pub program: u8,
    pub phase: u8,
}

impl Default for NotifyRiceCookerProgramPhase {
    fn default() -> (report: Self)
        ensures
            report == (NotifyRiceCookerProgramPhase { program: 0, phase: 0 }),
    {
        NotifyRiceCookerProgramPhase { program: 0, phase: 0 }
    }
}

impl NotifyRiceCookerProgramPhase {
    pub open spec fn encoding(self) -> Result<Seq<u8>, PacketError> {
        Err(PacketError::NoEncoder { packet_type: PacketType::NotifyRiceCookerProgramPhase })
    }

    /// Only cookers send this.
    pub fn encode(&self) -> (bytes: Result<Vec<u8>, PacketError>)
        ensures
            frame::bytes_of(bytes) == self.encoding(),
    {
        Err(PacketError::NoEncoder { packet_type: PacketType::NotifyRiceCookerProgramPhase })
    }

    pub open spec fn decoding(data: Seq<u8>) -> Result<GoveeBlePacket, PacketError> {
        match report_body(data) {
            Err(error) => Err(error),
            Ok(body) => if body[0] != 0x19 {
                Err(PacketError::NotProgramPhase)
            } else if !frame::all_zero(body.skip(3)) {
                Err(PacketError::TrailingData)
            } else {
                Ok(
                    GoveeBlePacket::NotifyRiceCookerProgramPhase(
                        NotifyRiceCookerProgramPhase { program: body[1], phase: body[2] },
                    ),
                )
            },
        }
    }

    pub fn decode(data: &[u8]) -> (packet: Result<GoveeBlePacket, PacketError>)
        ensures
            packet == Self::decoding(data@),
    {
        let body = rice_cooker_report_body(data)?;
        if body[0] != 0x19 {
            return Err(PacketError::NotProgramPhase);
        }
        if !layout::is_zero(&body[3..body.len()]) {
            return Err(PacketError::TrailingData);
        }
        Ok(
            GoveeBlePacket::NotifyRiceCookerProgramPhase(
                NotifyRiceCookerProgramPhase { program: body[1], phase: body[2] },
            ),
        )
    }
}

/// `aa 05 <program> <params...>`, where the program is not zero: the parameters
/// of a program. Where they stand depends on the program.
#[derive(Clone, Copy, Debug, PartialEq, Eq)]
pub struct NotifyRiceCookerProgramParams {
    pub program: u8,
    /// All parameter bytes, also those whose meaning is not known.
    pub params: [u8; 16],
}

impl NotifyRiceCookerProgramParams {
    pub open spec fn encoding(self) -> Result<Seq<u8>, PacketError> {
        Err(PacketError::NoEncoder { packet_type: PacketType::NotifyRiceCookerProgramParams })
    }

    /// Only cookers send this.
    pub fn encode(&self) -> (bytes: Result<Vec<u8>, PacketError>)
        ensures
            frame::bytes_of(bytes) == self.encoding(),
    {
        Err(PacketError::NoEncoder { packet_type: PacketType::NotifyRiceCookerProgramParams })
    }

    pub open spec fn decoding(data: Seq<u8>) -> Result<GoveeBlePacket, PacketError> {
        match report_body(data) {
            Err(error) => Err(error),
            Ok(body) => if body[0] != 0x05 {
                Err(PacketError::NotProgram)
            } else if body[1] == 0x00 {
                Err(PacketError::ProgramZero)
            } else {
                Ok(
                    GoveeBlePacket::NotifyRiceCookerProgramParams(
                        NotifyRiceCookerProgramParams {
                            program: body[1],
                            params: params_of(body.skip(2)),
                        },
                    ),
                )
            },
        }
    }

    pub fn decode(data: &[u8]) -> (packet: Result<GoveeBlePacket, PacketError>)
        ensures
            packet == Self::decoding(data@),
    {
        let body = rice_cooker_report_body(data)?;
        if body[0] != 0x05 {
            return Err(PacketError::NotProgram);
        }
        if body[1] == 0x00 {
            return Err(PacketError::ProgramZero);
        }
        let params: [u8; 16] = [
            body[2],
            body[3],
            body[4],
            body[5],
            body[6],
            body[7],
            body[8],
            body[9],
            body[10],
            body[11],
            body[12],
            body[13],
            body[14],
            body[15],
            body[16],
            body[17],
        ];
        assert(params == params_of(body@.skip(2)));
        Ok(
            GoveeBlePacket::NotifyRiceCookerProgramParams(
                NotifyRiceCookerProgramParams { program: body[1], params },
            ),
        )
    }
}

/// Sixteen bytes as an array.
pub open spec fn params_of(bytes: Seq<u8>) -> [u8; 16] {
    [
        bytes[0],
        bytes[1],
        bytes[2],
        bytes[3],
        bytes[4],
        bytes[5],
        bytes[6],
        bytes[7],
        bytes[8],
        bytes[9],
        bytes[10],
        bytes[11],
        bytes[12],
        bytes[13],
        bytes[14],
        bytes[15],
    ]
}

/// A number of two bytes, the high one first.
pub open spec fn big_endian(bytes: Seq<u8>, i: int) -> u16 {
    (bytes[i] * 256 + bytes[i + 1]) as u16
}

/// `value` where it lies within `low..=high`.
pub open spec fn within(value: u16, low: u16, high: u16) -> Option<u16> {
    if low <= value <= high {
        Some(value)
    } else {
        None
    }
}

impl NotifyRiceCookerProgramParams {
    /// Where the set temperature of a program stands among its parameters, for
    /// the programs whose layout is known.
    pub open spec fn temperature_index_spec(self) -> Option<usize> {
        match self.program {
            1 => Some(4),
            3 => Some(5),
            4 => Some(6),
            _ => None,
        }
    }

    /// Where the set temperature of this program stands among its parameters.
    /// A program whose layout is not known has none: no place is guessed. The
    /// other fields are located relative to this one.
    pub fn temperature_index(&self) -> (index: Option<usize>)
        ensures
            index == self.temperature_index_spec(),
    {
        match self.program {
            1 => Some(4),
            3 => Some(5),
            4 => Some(6),
            _ => None,
        }
    }

    /// The number that stands `offset` bytes from the set temperature, if it is
    /// within `low..=high`.
    pub open spec fn field(self, offset: int, low: u16, high: u16) -> Option<u16> {
        match self.temperature_index_spec() {
            Some(index) => within(big_endian(self.params@, index + offset), low, high),
            None => None,
        }
    }

    /// The set temperature of the program, in hundredths of a degree
    /// Fahrenheit. One outside of 32.00 to 230.00 degrees is not plausible and
    /// is left out.
    pub fn set_temperature_centi_fahrenheit(&self) -> (temperature: Option<u16>)
        ensures
            temperature == self.field(0, 3200, 23000),
            self.program != 1 && self.program != 3 && self.program != 4 ==> temperature is None,
            self.program == 1 ==> temperature == within(
                (self.params@[4] * 256 + self.params@[5]) as u16,
                3200,
                23000,
            ),
            self.program == 3 ==> temperature == within(
                (self.params@[5] * 256 + self.params@[6]) as u16,
                3200,
                23000,
            ),
            self.program == 4 ==> temperature == within(
                (self.params@[6] * 256 + self.params@[7]) as u16,
                3200,
                23000,
            ),
    {
        let index = match self.temperature_index() {
            Some(index) => index,
            None => return None,
        };
        let value = read_big_endian(self.params[index], self.params[index + 1]);
        if 3200 <= value && value <= 23000 {
            Some(value)
        } else {
            None
        }
    }

    /// How long the program is set to run, in minutes, up to a day. It stands
    /// right after the temperature.
    pub fn duration_minutes(&self) -> (duration: Option<u16>)
        ensures
            duration == self.field(2, 1, 1440),
            self.program != 1 && self.program != 3 && self.program != 4 ==> duration is None,
            self.program == 1 ==> duration == within(
                (self.params@[6] * 256 + self.params@[7]) as u16,
                1,
                1440,
            ),
            self.program == 3 ==> duration == within(
                (self.params@[7] * 256 + self.params@[8]) as u16,
                1,
                1440,
            ),
            self.program == 4 ==> duration == within(
                (self.params@[8] * 256 + self.params@[9]) as u16,
                1,
                1440,
            ),
    {
        let index = match self.temperature_index() {
            Some(index) => index + 2,
            None => return None,
        };
        let value = read_big_endian(self.params[index], self.params[index + 1]);
        if 1 <= value && value <= 1440 {
            Some(value)
        } else {
            None
        }
    }

    /// In how many minutes a delayed program is to be finished, up to a day;
    /// none where no delay is set. It stands three bytes before the temperature.
    pub fn scheduled_finish_in_minutes(&self) -> (minutes: Option<u16>)
        ensures
            minutes == self.field(-3, 1, 1440),
            self.program != 1 && self.program != 3 && self.program != 4 ==> minutes is None,
            self.program == 1 ==> minutes == within(
                (self.params@[1] * 256 + self.params@[2]) as u16,
                1,
                1440,
            ),
            self.program == 3 ==> minutes == within(
                (self.params@[2] * 256 + self.params@[3]) as u16,
                1,
                1440,
            ),
            self.program == 4 ==> minutes == within(
                (self.params@[3] * 256 + self.params@[4]) as u16,
                1,
                1440,
            ),
    {
        let index = match self.temperature_index() {
            Some(index) => match index.checked_sub(3) {
                Some(index) => index,
                None => return None,
            },
            None => return None,
        };
        let value = read_big_endian(self.params[index], self.params[index + 1]);
        if 1 <= value && value <= 1440 {
            Some(value)
        } else {
            None
        }
    }
}

fn read_big_endian(high: u8, low: u8) -> (value: u16)
    ensures
        value == high * 256 + low,
{
    high as u16 * 256 + low as u16
}

/// The command that makes a cooker run `program`: `33 05 00 <program>`, which
/// mirrors the report `aa 05 00 <program>`. Program zero stops it.
pub fn rice_cooker_set_program_command(program: u8) -> (command: Base64HexBytes)
    ensures
        command@ == frame::framed(seq![0x33u8, 0x05u8, 0x00u8, program]),
{
    let bytes: Vec<u8> = vec![0x33u8, 0x05u8, 0x00u8, program];
    assert(bytes@ =~= seq![0x33u8, 0x05u8, 0x00u8, program]);
    Base64HexBytes::with_bytes(bytes)
}

/// The name of a program; one that is not known is called by its number.
pub open spec fn program_text(program: u8) -> Seq<char> {
    match program {
        0 => "Standby"@,
        1 => "Rice"@,
        2 => "Saute"@,
        3 => "Steam"@,
        4 => "Slow Cook"@,
        5 => "DIY"@,
        n => "Program "@ + text::decimal_text(n as nat),
    }
}

/// The program with this name.
pub open spec fn program_named(name: Seq<char>) -> Option<u8> {
    if name == "Standby"@ {
        Some(0)
    } else if name == "Rice"@ {
        Some(1)
    } else if name == "Saute"@ {
        Some(2)
    } else if name == "Steam"@ {
        Some(3)
    } else if name == "Slow Cook"@ {
        Some(4)
    } else if name == "DIY"@ {
        Some(5)
    } else {
        None
    }
}

/// The program with this name. Anything but a known name gives none, so that no
/// guess is ever sent to a heating appliance.
pub fn rice_cooker_program_id(name: &str) -> (program: Option<u8>)
    ensures
        program == program_named(name@),
{
    if text::same_text(name, "Standby") {
        Some(0)
    } else if text::same_text(name, "Rice") {
        Some(1)
    } else if text::same_text(name, "Saute") {
        Some(2)
    } else if text::same_text(name, "Steam") {
        Some(3)
    } else if text::same_text(name, "Slow Cook") {
        Some(4)
    } else if text::same_text(name, "DIY") {
        Some(5)
    } else {
        None
    }
}

/// The names of the known programs, in the order of their numbers.
pub fn rice_cooker_program_options() -> (options: Vec<String>)
    ensures
        options@.len() == 6,
        forall|i: int| 0 <= i < 6 ==> (#[trigger] options@[i])@ == program_text(i as u8),
{
    let mut options: Vec<String> = Vec::new();
    let mut program: u8 = 0;
    while program <= 5
        invariant
            program <= 6,
            options@.len() == program,
            forall|i: int| 0 <= i < program ==> (#[trigger] options@[i])@ == program_text(i as u8),
        decreases 6 - program,
    {
        options.push(rice_cooker_program_name(program));
        program = program + 1;
    }
    options
}

/// The name of a program; one that is not known is called by its number.
pub fn rice_cooker_program_name(program: u8) -> (name: String)
    ensures
        name@ == program_text(program),
{
    match program {
        0 => "Standby".to_owned(),
        1 => "Rice".to_owned(),
        2 => "Saute".to_owned(),
        3 => "Steam".to_owned(),
        4 => "Slow Cook".to_owned(),
        5 => "DIY".to_owned(),
        n => {
            let mut name = "Program ".to_owned();
            name.append(text::decimal(n as u64).as_str());
            name
        },
    }
}

/// The name of a known program gives the program back, and the name of an
/// unknown one gives none.
pub proof fn law_program_name_round_trip(program: u8)
    ensures
        program_named(program_text(program)) == (if program <= 5 {
            Some(program)
        } else {
            None
        }),
{
    reveal_strlit("Standby");
    reveal_strlit("Rice");
    reveal_strlit("Saute");
    reveal_strlit("Steam");
    reveal_strlit("Slow Cook");
    reveal_strlit("DIY");
    reveal_strlit("Program ");
    assert("Standby"@.len() == 7 && "Standby"@[0] == 'S');
    assert("Rice"@.len() == 4 && "Rice"@[0] == 'R');
    assert("Saute"@.len() == 5 && "Saute"@[0] == 'S' && "Saute"@[1] == 'a');
    assert("Steam"@.len() == 5 && "Steam"@[0] == 'S' && "Steam"@[1] == 't');
    assert("Slow Cook"@.len() == 9 && "Slow Cook"@[0] == 'S');
    assert("DIY"@.len() == 3 && "DIY"@[0] == 'D');
    if program > 5 {
        assert("Program "@.len() == 8 && "Program "@[0] == 'P');
        assert(program_text(program)[0] == 'P');
    }
}

/// Whatever name gives a program is that program's name, and one of those that
/// are offered.
pub proof fn law_program_id_round_trip(name: Seq<char>)
    ensures
        program_named(name) matches Some(program) ==> program <= 5 && program_text(program) == name,
{
}

/// A report made of the marker, the active program and zeros, and sealed, is
/// read as just that.
pub proof fn law_active_program_reports(program: u8)
    ensures
        NotifyRiceCookerActiveProgram::decoding(
            frame::framed(seq![0xaau8, 0x05u8, 0x00u8, program]),
        ) == Ok::<GoveeBlePacket, PacketError>(
            GoveeBlePacket::NotifyRiceCookerActiveProgram(
                NotifyRiceCookerActiveProgram { program },
            ),
        ),
{
    frame::law_finish_seals(seq![0xaau8, 0x05u8, 0x00u8, program]);
}

/// A report made of the marker, a program, its phase and zeros, and sealed, is
/// read as just that.
pub proof fn law_program_phase_reports(program: u8, phase: u8)
    ensures
        NotifyRiceCookerProgramPhase::decoding(
            frame::framed(seq![0xaau8, 0x19u8, program, phase]),
        ) == Ok::<GoveeBlePacket, PacketError>(
            GoveeBlePacket::NotifyRiceCookerProgramPhase(
                NotifyRiceCookerProgramPhase { program, phase },
            ),
        ),
{
    frame::law_finish_seals(seq![0xaau8, 0x19u8, program, phase]);
}

/// A report made of the marker, a program other than zero and its parameters,
/// and sealed, is read as just that.
pub proof fn law_program_params_reports(report: NotifyRiceCookerProgramParams)
    requires
        report.program != 0,
    ensures
        NotifyRiceCookerProgramParams::decoding(
            frame::framed(seq![0xaau8, 0x05u8, report.program] + report.params@),
        ) == Ok::<GoveeBlePacket, PacketError>(
            GoveeBlePacket::NotifyRiceCookerProgramParams(report),
        ),
{
    let content = seq![0xaau8, 0x05u8, report.program] + report.params@;
    frame::law_finish_seals(content);
    let body = frame::framed(content).subrange(1, 19);
    assert(body.skip(2) =~= report.params@);
    assert(params_of(body.skip(2))@ =~= report.params@);
    assert(params_of(body.skip(2)) == report.params);
}

/// A report in which one byte was changed is read by no decoder: its checksum
/// gives it away.
pub proof fn law_corrupted_reports_are_rejected(data: Seq<u8>, i: int, byte: u8)
    requires
        report_body(data) is Ok,
        0 <= i < data.len(),
        byte != data[i],
    ensures
        report_body(data.update(i, byte)) is Err,
        NotifyRiceCookerActiveProgram::decoding(data.update(i, byte)) is Err,
        NotifyRiceCookerProgramPhase::decoding(data.update(i, byte)) is Err,
        NotifyRiceCookerProgramParams::decoding(data.update(i, byte)) is Err,
{
    frame::law_one_changed_byte_breaks_the_seal(data, i, byte);
}

/// The command that sets a program is one sealed frame, and it is the report of
/// that program but for the marker and the checksum.
pub proof fn law_set_program_mirrors_the_report(program: u8)
    ensures
        ({
            let command = frame::framed(seq![0x33u8, 0x05u8, 0x00u8, program]);
            let report = frame::framed(seq![0xaau8, 0x05u8, 0x00u8, program]);
            &&& frame::is_sealed(command)
            &&& command.subrange(1, 19) == report.subrange(1, 19)
        }),
{
    frame::law_finish_seals(seq![0x33u8, 0x05u8, 0x00u8, program]);
    let command = frame::framed(seq![0x33u8, 0x05u8, 0x00u8, program]);
    let report = frame::framed(seq![0xaau8, 0x05u8, 0x00u8, program]);
    assert(command.subrange(1, 19) =~= report.subrange(1, 19));
}

/// What the body of a report is: the 18 bytes between the marker and the checksum,
/// where there are 20 bytes in all, the first is the marker, and the last is the
/// checksum of the others.
pub proof fn law_report_body(data: Seq<u8>)
    ensures
        data.len() != 20 ==> report_body(data) == Err::<Seq<u8>, PacketError>(
            PacketError::ReportLength,
        ),
        data.len() == 20 && data[0] != 0xaa ==> report_body(data) == Err::<Seq<u8>, PacketError>(
            PacketError::ReportMarker,
        ),
        data.len() == 20 && data[0] == 0xaa && data[19] != frame::xor_all(data.subrange(0, 19))
            ==> report_body(data) == Err::<Seq<u8>, PacketError>(PacketError::ReportChecksum),
        data.len() == 20 && data[0] == 0xaa && data[19] == frame::xor_all(data.subrange(0, 19))
            ==> report_body(data) == Ok::<Seq<u8>, PacketError>(data.subrange(1, 19)),
{
    if data.len() == 20 {
        assert(data.take(19) =~= data.subrange(0, 19));
    }
}

/// What is read as the active program: a sealed frame `aa 05 00 <program>` and zeros,
/// and nothing else.
pub proof fn law_active_program_reading(data: Seq<u8>)
    ensures
        ({
            let found = NotifyRiceCookerActiveProgram::decoding(data);
            let whole = data.len() == 20 && data[0] == 0xaa && data[19] == frame::xor_all(
                data.subrange(0, 19),
            );
            &&& data.len() != 20 ==> found == Err::<GoveeBlePacket, PacketError>(PacketError::ReportLength)
            &&& data.len() == 20 && data[0] != 0xaa ==> found == Err::<GoveeBlePacket, PacketError>(
                PacketError::ReportMarker,
            )
            &&& data.len() == 20 && data[0] == 0xaa && !whole ==> found == Err::<GoveeBlePacket, PacketError>(
                PacketError::ReportChecksum,
            )
            &&& whole && !(data[1] == 0x05 && data[2] == 0x00) ==> found == Err::<GoveeBlePacket, PacketError>(
                PacketError::NotActiveProgram,
            )
            &&& whole && data[1] == 0x05 && data[2] == 0x00 && (exists|i: int| 4 <= i < 19 && data[i] != 0) ==> found == Err::<GoveeBlePacket, PacketError>(
                PacketError::TrailingData,
            )
            &&& whole && data[1] == 0x05 && data[2] == 0x00 && (forall|i: int| 4 <= i < 19 ==> data[i] == 0) ==> found == Ok::<GoveeBlePacket, PacketError>(
                GoveeBlePacket::NotifyRiceCookerActiveProgram(
                    NotifyRiceCookerActiveProgram { program: data[3] },
                ),
            )
        }),
{
    if data.len() == 20 {
        assert(data.take(19) =~= data.subrange(0, 19));
        let body = data.subrange(1, 19);
        assert(body[0] == data[1] && body[1] == data[2] && body[2] == data[3]);
        let rest = body.skip(3);
        assert forall|i: int| 0 <= i < 15 implies #[trigger] rest[i] == data[i + 4] by {}
        if exists|i: int| 4 <= i < 19 && data[i] != 0 {
            let i = choose|i: int| 4 <= i < 19 && data[i] != 0;
            assert(rest[i - 4] == data[i]);
        }
    }
}

/// What is read as the phase of a program: a sealed frame `aa 19 <program> <phase>`
/// and zeros, and nothing else.
pub proof fn law_program_phase_reading(data: Seq<u8>)
    ensures
        ({
            let found = NotifyRiceCookerProgramPhase::decoding(data);
            let whole = data.len() == 20 && data[0] == 0xaa && data[19] == frame::xor_all(
                data.subrange(0, 19),
            );
            &&& data.len() != 20 ==> found == Err::<GoveeBlePacket, PacketError>(PacketError::ReportLength)
            &&& data.len() == 20 && data[0] != 0xaa ==> found == Err::<GoveeBlePacket, PacketError>(
                PacketError::ReportMarker,
            )
            &&& data.len() == 20 && data[0] == 0xaa && !whole ==> found == Err::<GoveeBlePacket, PacketError>(
                PacketError::ReportChecksum,
            )
            &&& whole && data[1] != 0x19 ==> found == Err::<GoveeBlePacket, PacketError>(
                PacketError::NotProgramPhase,
            )
            &&& whole && data[1] == 0x19 && (exists|i: int| 4 <= i < 19 && data[i] != 0) ==> found == Err::<GoveeBlePacket, PacketError>(
                PacketError::TrailingData,
            )
            &&& whole && data[1] == 0x19 && (forall|i: int| 4 <= i < 19 ==> data[i] == 0) ==> found == Ok::<GoveeBlePacket, PacketError>(
                GoveeBlePacket::NotifyRiceCookerProgramPhase(
                    NotifyRiceCookerProgramPhase { program: data[2], phase: data[3] },
                ),
            )
        }),
{
    if data.len() == 20 {
        assert(data.take(19) =~= data.subrange(0, 19));
        let body = data.subrange(1, 19);
        assert(body[0] == data[1] && body[1] == data[2] && body[2] == data[3]);
        let rest = body.skip(3);
        assert forall|i: int| 0 <= i < 15 implies #[trigger] rest[i] == data[i + 4] by {}
        if exists|i: int| 4 <= i < 19 && data[i] != 0 {
            let i = choose|i: int| 4 <= i < 19 && data[i] != 0;
            assert(rest[i - 4] == data[i]);
        }
    }
}

/// What is read as the parameters of a program: a sealed frame `aa 05 <program>`,
/// where the program is not zero, and the 16 bytes after it.
pub proof fn law_program_params_reading(data: Seq<u8>)
    ensures
        ({
            let found = NotifyRiceCookerProgramParams::decoding(data);
            let whole = data.len() == 20 && data[0] == 0xaa && data[19] == frame::xor_all(
                data.subrange(0, 19),
            );
            &&& data.len() != 20 ==> found == Err::<GoveeBlePacket, PacketError>(PacketError::ReportLength)
            &&& data.len() == 20 && data[0] != 0xaa ==> found == Err::<GoveeBlePacket, PacketError>(
                PacketError::ReportMarker,
            )
            &&& data.len() == 20 && data[0] == 0xaa && !whole ==> found == Err::<GoveeBlePacket, PacketError>(
                PacketError::ReportChecksum,
            )
            &&& whole && data[1] != 0x05 ==> found == Err::<GoveeBlePacket, PacketError>(
                PacketError::NotProgram,
            )
            &&& whole && data[1] == 0x05 && data[2] == 0x00 ==> found == Err::<GoveeBlePacket, PacketError>(
                PacketError::ProgramZero,
            )
            &&& whole && data[1] == 0x05 && data[2] != 0x00 ==> (found matches Ok(
                GoveeBlePacket::NotifyRiceCookerProgramParams(report),
            ) && report.program == data[2] && report.params@ == data.subrange(3, 19))
        }),
{
    if data.len() == 20 {
        assert(data.take(19) =~= data.subrange(0, 19));
        let body = data.subrange(1, 19);
        assert(body[0] == data[1] && body[1] == data[2] && body[2] == data[3]);
        assert(params_of(body.skip(2))@ =~= data.subrange(3, 19));
    }
}

/// Where the numbers of a program stand among its parameters, high byte first, and
/// within which bounds they are given. Only programs one, three and four have any:
/// no place is guessed for another.
pub proof fn law_program_fields(report: NotifyRiceCookerProgramParams)
    ensures
        ({
            let word = |i: int| report.params@[i] * 256 + report.params@[i + 1];
            let temperature = report.field(0, 3200, 23000);
            let duration = report.field(2, 1, 1440);
            let finish = report.field(-3, 1, 1440);
            &&& report.program != 1 && report.program != 3 && report.program != 4 ==> {
                &&& report.temperature_index_spec() is None
                &&& temperature is None
                &&& duration is None
                &&& finish is None
            }
            &&& report.program == 1 ==> {
                &&& temperature == (if 3200 <= word(4) <= 23000 {
                    Some(word(4) as u16)
                } else {
                    None
                })
                &&& duration == (if 1 <= word(6) <= 1440 {
                    Some(word(6) as u16)
                } else {
                    None
                })
                &&& finish == (if 1 <= word(1) <= 1440 {
                    Some(word(1) as u16)
                } else {
                    None
                })
            }
            &&& report.program == 3 ==> {
                &&& temperature == (if 3200 <= word(5) <= 23000 {
                    Some(word(5) as u16)
                } else {
                    None
                })
                &&& duration == (if 1 <= word(7) <= 1440 {
                    Some(word(7) as u16)
                } else {
                    None
                })
                &&& finish == (if 1 <= word(2) <= 1440 {
                    Some(word(2) as u16)
                } else {
                    None
                })
            }
            &&& report.program == 4 ==> {
                &&& temperature == (if 3200 <= word(6) <= 23000 {
                    Some(word(6) as u16)
                } else {
                    None
                })
                &&& duration == (if 1 <= word(8) <= 1440 {
                    Some(word(8) as u16)
                } else {
                    None
                })
                &&& finish == (if 1 <= word(3) <= 1440 {
                    Some(word(3) as u16)
                } else {
                    None
                })
            }
        }),
{
}

/// A number is given where it lies within its bounds, and only there.
pub proof fn law_within(value: u16, low: u16, high: u16)
    ensures
        within(value, low, high) == Some(value) <==> low <= value && value <= high,
        within(value, low, high) is None <==> value < low || value > high,
{
}

/// The names of the programs. Nothing but a known name gives a program.
pub proof fn law_program_names(program: u8, name: Seq<char>)
    ensures
        program_text(0) == "Standby"@,
        program_text(1) == "Rice"@,
        program_text(2) == "Saute"@,
        program_text(3) == "Steam"@,
        program_text(4) == "Slow Cook"@,
        program_text(5) == "DIY"@,
        program > 5 ==> program_text(program) == "Program "@ + text::decimal_text(program as nat),
        program_named(name) == Some(0u8) <==> name == "Standby"@,
        program_named(name) == Some(1u8) <==> name == "Rice"@,
        program_named(name) == Some(2u8) <==> name == "Saute"@,
        program_named(name) == Some(3u8) <==> name == "Steam"@,
        program_named(name) == Some(4u8) <==> name == "Slow Cook"@,
        program_named(name) == Some(5u8) <==> name == "DIY"@,
        program_named(name) is Some ==> program_named(name)->0 <= 5,
{
    law_program_name_round_trip(0);
    law_program_name_round_trip(1);
    law_program_name_round_trip(2);
    law_program_name_round_trip(3);
    law_program_name_round_trip(4);
    law_program_name_round_trip(5);
}

/// Reports of cookers are never encoded.
pub proof fn law_reports_are_not_encoded(
    active: NotifyRiceCookerActiveProgram,
    phase: NotifyRiceCookerProgramPhase,
    params: NotifyRiceCookerProgramParams,
)
    ensures
        active.encoding() == Err::<Seq<u8>, PacketError>(
            PacketError::NoEncoder { packet_type: PacketType::NotifyRiceCookerActiveProgram },
        ),
        phase.encoding() == Err::<Seq<u8>, PacketError>(
            PacketError::NoEncoder { packet_type: PacketType::NotifyRiceCookerProgramPhase },
        ),
        params.encoding() == Err::<Seq<u8>, PacketError>(
            PacketError::NoEncoder { packet_type: PacketType::NotifyRiceCookerProgramParams },
        ),
{
}

} // verus!
