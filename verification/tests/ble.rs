use govee_ble::{
    rice_cooker_program_id, rice_cooker_program_name, rice_cooker_program_options,
    rice_cooker_set_program_command, Base64HexBytes, GoveeBlePacket, NotifyRiceCookerActiveProgram,
    NotifyRiceCookerProgramParams, NotifyRiceCookerProgramPhase, PacketData, PacketManager,
    SetDevicePower, SetHumidifierMode, SetHumidifierNightlightParams, SetMusicPalette,
    SetSceneCode,
};

#[test]
fn packet_manager() {
    let mut manager = PacketManager::new();
    assert_eq!(
        manager.decode_for_sku(
            "H7160",
            &[0x33, 0x05, 0x01, 0x20, 0, 0, 0, 0, 0, 0, 0, 0, 0, 0, 0, 0, 0, 0, 0, 23]
        ),
        GoveeBlePacket::SetHumidifierMode(SetHumidifierMode {
            mode: 1,
            param: 0x20
        })
    );

    assert_eq!(
        manager
            .encode_for_sku(
                "H7160",
                &SetHumidifierMode {
                    mode: 1,
                    param: 0x20
                }
            )
            .unwrap(),
        vec![0x33, 0x05, 0x01, 0x20, 0, 0, 0, 0, 0, 0, 0, 0, 0, 0, 0, 0, 0, 0, 0, 23]
    );
}

fn round_trip<T: PacketData>(sku: &str, value: &T, expect: GoveeBlePacket) {
    let bytes = Base64HexBytes::encode_for_sku(sku, value).unwrap();
    let decoded = bytes.decode_for_sku(sku);
    assert_eq!(decoded, expect);
}

#[test]
fn basic_round_trip() {
    round_trip(
        "Generic:Light",
        &SetDevicePower { on: true },
        GoveeBlePacket::SetDevicePower(SetDevicePower { on: true }),
    );
    round_trip(
        "H7160",
        &SetHumidifierNightlightParams {
            on: true,
            r: 255,
            g: 69,
            b: 42,
            brightness: 100,
        },
        GoveeBlePacket::SetHumidifierNightlight(SetHumidifierNightlightParams {
            on: true,
            r: 255,
            g: 69,
            b: 42,
            brightness: 100,
        }),
    );
}

fn hex_lines(bytes: &[u8]) -> String {
    let mut hex = String::new();
    for (idx, b) in bytes.iter().enumerate() {
        if idx % 20 == 0 && !hex.is_empty() {
            hex.push('\n');
        } else if !hex.is_empty() {
            hex.push(' ');
        }
        hex.push_str(&format!("{b:02x}"));
    }
    hex
}

#[test]
fn scene_command() {
    const FOREST_SCENCE_PARAM: &str = "AyYAAQAKAgH/GQG0CgoCyBQF//8AAP//////AP//lP8AFAGWAAAAACMAAg8FAgH/FAH7AAAB+goEBP8AtP8AR///4/8AAAAAAAAAABoAAAABAgH/BQHIFBQC7hQBAP8AAAAAAAAAAA==";
    const FOREST_SCENE_CODE: u16 = 212;

    let command = SetSceneCode::new(FOREST_SCENE_CODE, FOREST_SCENCE_PARAM.to_string());

    let padded = command.encode().unwrap();

    println!("data is:");
    let mut hex = String::new();
    for (idx, b) in padded.iter().enumerate() {
        if idx % 20 == 0 && !hex.is_empty() {
            hex.push('\n');
        } else if !hex.is_empty() {
            hex.push(' ');
        }
        hex.push_str(&format!("{b:02x}"));
    }
    println!("{hex}");

    assert_eq!(
        hex,
        "a3 00 01 07 02 03 26 00 01 00 0a 02 01 ff 19 01 b4 0a 0a d9
a3 01 02 c8 14 05 ff ff 00 00 ff ff ff ff ff 00 ff ff 94 12
a3 02 ff 00 14 01 96 00 00 00 00 23 00 02 0f 05 02 01 ff 0a
a3 03 14 01 fb 00 00 01 fa 0a 04 04 ff 00 b4 ff 00 47 ff b3
a3 04 ff e3 ff 00 00 00 00 00 00 00 00 1a 00 00 00 01 02 5d
a3 05 01 ff 05 01 c8 14 14 02 ee 14 01 00 ff 00 00 00 00 92
a3 ff 00 00 00 00 00 00 00 00 00 00 00 00 00 00 00 00 00 5c
33 05 04 d4 00 00 00 00 00 00 00 00 00 00 00 00 00 00 00 e6"
    );
}

/// Profile 0x72, a four-colour palette, sensitivity 99.
#[test]
fn music_palette_four_colours() {
    let command = SetMusicPalette {
        profile: 0x72,
        colors: vec![
            [0xff, 0x7a, 0x00],
            [0x14, 0x00, 0xc8],
            [0x4a, 0x00, 0xe0],
            [0xff, 0xc2, 0x4a],
        ],
        sensitivity: 99,
    };

    assert_eq!(
        hex_lines(&command.encode().unwrap()),
        "a3 00 01 02 41 72 04 ff 7a 00 14 00 c8 4a 00 e0 ff c2 4a 13
a3 ff 00 00 00 00 00 00 00 00 00 00 00 00 00 00 00 00 00 5c
33 05 13 72 63 00 00 00 00 00 00 00 00 00 00 00 00 00 00 34"
    );
}

/// Seven colours is the maximum: 21 palette bytes, split 12 into the first
/// fragment and 9 into the `a3 ff` tail.
#[test]
fn music_palette_seven_colours_spills_into_tail() {
    let command = SetMusicPalette {
        profile: 0x33,
        colors: (1..=7u8).map(|i| [i, 2 * i, 3 * i]).collect(),
        sensitivity: 100,
    };

    assert_eq!(
        hex_lines(&command.encode().unwrap()),
        "a3 00 01 02 41 33 07 01 02 03 02 04 06 03 06 09 04 08 0c d9
a3 ff 05 0a 0f 06 0c 12 07 0e 15 00 00 00 00 00 00 00 00 58
33 05 13 33 64 00 00 00 00 00 00 00 00 00 00 00 00 00 00 72"
    );
}

#[test]
fn music_palette_rejects_bad_input() {
    let base = SetMusicPalette {
        profile: 0x72,
        colors: vec![[255, 0, 0]],
        sensitivity: 99,
    };

    let empty = SetMusicPalette {
        colors: vec![],
        ..base.clone()
    };
    assert!(empty.encode().is_err());

    let too_many = SetMusicPalette {
        colors: vec![[0, 0, 0]; 8],
        ..base.clone()
    };
    assert!(too_many.encode().is_err());

    let over_range = SetMusicPalette {
        sensitivity: 101,
        ..base
    };
    assert!(over_range.encode().is_err());
}

#[test]
fn music_palette_is_registered_for_generic_lights() {
    let command = SetMusicPalette {
        profile: 0x72,
        colors: vec![[255, 0, 0]],
        sensitivity: 99,
    };
    let encoded = Base64HexBytes::encode_for_sku("Generic:Light", &command).unwrap();
    // Three 20-byte frames, base64() splits them per frame
    assert_eq!(encoded.base64().len(), 3);
}

fn decode(frame: &[u8; 20]) -> GoveeBlePacket {
    PacketManager::new().decode_for_sku("H7180", frame)
}

fn active(program: u8) -> GoveeBlePacket {
    GoveeBlePacket::NotifyRiceCookerActiveProgram(NotifyRiceCookerActiveProgram { program })
}

// The cooker is idle.
const IDLE: [u8; 20] = [
    0xAA, 0x05, 0x00, 0x00, 0, 0, 0, 0, 0, 0, 0, 0, 0, 0, 0, 0, 0, 0, 0, 0xAF,
];
// Programs that were started.
const PROGRAM_1: [u8; 20] = [
    0xAA, 0x05, 0x00, 0x01, 0, 0, 0, 0, 0, 0, 0, 0, 0, 0, 0, 0, 0, 0, 0, 0xAE,
];
const PROGRAM_3: [u8; 20] = [
    0xAA, 0x05, 0x00, 0x03, 0, 0, 0, 0, 0, 0, 0, 0, 0, 0, 0, 0, 0, 0, 0, 0xAC,
];
const PROGRAM_4: [u8; 20] = [
    0xAA, 0x05, 0x00, 0x04, 0, 0, 0, 0, 0, 0, 0, 0, 0, 0, 0, 0, 0, 0, 0, 0xAB,
];

#[test]
fn active_program_frames() {
    assert_eq!(decode(&IDLE), active(0));
    assert_eq!(decode(&PROGRAM_1), active(1));
    assert_eq!(decode(&PROGRAM_3), active(3));
    assert_eq!(decode(&PROGRAM_4), active(4));
}

#[test]
fn program_phase_frames() {
    for (frame, program, phase) in [
        // idle, program 1 running, program 4, program 3
        (
            [
                0xAA, 0x19, 0x00, 0x00, 0, 0, 0, 0, 0, 0, 0, 0, 0, 0, 0, 0, 0, 0, 0, 0xB3,
            ],
            0,
            0,
        ),
        (
            [
                0xAA, 0x19, 0x01, 0x02, 0, 0, 0, 0, 0, 0, 0, 0, 0, 0, 0, 0, 0, 0, 0, 0xB0,
            ],
            1,
            2,
        ),
        (
            [
                0xAA, 0x19, 0x04, 0x01, 0, 0, 0, 0, 0, 0, 0, 0, 0, 0, 0, 0, 0, 0, 0, 0xB6,
            ],
            4,
            1,
        ),
        (
            [
                0xAA, 0x19, 0x03, 0x01, 0, 0, 0, 0, 0, 0, 0, 0, 0, 0, 0, 0, 0, 0, 0, 0xB1,
            ],
            3,
            1,
        ),
    ] {
        assert_eq!(
            decode(&frame),
            GoveeBlePacket::NotifyRiceCookerProgramPhase(NotifyRiceCookerProgramPhase {
                program,
                phase
            })
        );
    }
}

/// The set temperature moved 131.00 -> 149.00 -> 113.00 degrees Fahrenheit as it
/// was changed.
#[test]
fn program_1_set_temperature_follows_the_app() {
    // program 1 running, set temperature 131.00
    let f1: [u8; 20] = [
        0xAA, 0x05, 0x01, 0x00, 0x00, 0x00, 0x01, 0x33, 0x2C, 0x02, 0xD0, 0x01, 0x00, 0x2D, 0x00,
        0x00, 0x2D, 0x02, 0x00, 0x61,
    ];
    // the byte before the temperature is another one
    let f2: [u8; 20] = [
        0xAA, 0x05, 0x01, 0x00, 0x00, 0x00, 0x00, 0x3A, 0x34, 0x02, 0xD0, 0x01, 0x00, 0x2D, 0x00,
        0x00, 0x2D, 0x02, 0x00, 0x71,
    ];
    // program stopped, the trailing fields are zero
    let f3: [u8; 20] = [
        0xAA, 0x05, 0x01, 0x00, 0x00, 0x00, 0x01, 0x2C, 0x24, 0x02, 0xD0, 0x00, 0x00, 0x00, 0x00,
        0x00, 0x00, 0x00, 0x00, 0x75,
    ];
    for (frame, centi_f) in [(f1, 13100), (f2, 14900), (f3, 11300)] {
        match decode(&frame) {
            GoveeBlePacket::NotifyRiceCookerProgramParams(p) => {
                assert_eq!(p.program, 1);
                assert_eq!(p.set_temperature_centi_fahrenheit(), Some(centi_f));
            }
            other => panic!("expected program params, got {other:?}"),
        }
    }
}

/// Programs 3 and 4 carry the temperature at places of their own.
#[test]
fn program_3_and_4_set_temperatures() {
    // program 3, set temperature 113.00
    let p3: [u8; 20] = [
        0xAA, 0x05, 0x03, 0x00, 0x46, 0x00, 0x00, 0x01, 0x2C, 0x24, 0x02, 0xD0, 0x01, 0x00, 0x00,
        0x00, 0x00, 0x01, 0x00, 0x31,
    ];
    // program 4, set temperature 131.00
    let p4: [u8; 20] = [
        0xAA, 0x05, 0x04, 0x03, 0x00, 0x78, 0x00, 0x00, 0x01, 0x33, 0x2C, 0x02, 0xD0, 0x01, 0x00,
        0x00, 0x00, 0x00, 0x01, 0x1C,
    ];
    match decode(&p3) {
        GoveeBlePacket::NotifyRiceCookerProgramParams(p) => {
            assert_eq!(p.program, 3);
            assert_eq!(p.set_temperature_centi_fahrenheit(), Some(11300));
        }
        other => panic!("expected program params, got {other:?}"),
    }
    match decode(&p4) {
        GoveeBlePacket::NotifyRiceCookerProgramParams(p) => {
            assert_eq!(p.program, 4);
            assert_eq!(p.set_temperature_centi_fahrenheit(), Some(13100));
        }
        other => panic!("expected program params, got {other:?}"),
    }
}

/// Frames that are not explained stay generic: other families, a corrupted
/// frame, and one with another marker.
#[test]
fn unexplained_frames_stay_generic() {
    let keep_warm_store: [u8; 20] = [
        0xAA, 0x22, 0x00, 0x33, 0x2C, 0x02, 0xD0, 0, 0, 0, 0, 0, 0, 0, 0, 0, 0, 0, 0, 0x45,
    ];
    let family_17: [u8; 20] = [
        0xAA, 0x17, 0x00, 0x00, 0, 0, 0, 0, 0, 0, 0, 0, 0, 0, 0, 0, 0, 0, 0, 0xBD,
    ];
    // PROGRAM_3 with one bit flipped -> checksum no longer matches
    let mut corrupted = PROGRAM_3;
    corrupted[3] = 0x02;
    let pt_real: [u8; 20] = [
        0xAB, 0x00, 0x01, 0x00, 0x03, 0x02, 0x02, 0x00, 0x01, 0, 0, 0, 0, 0, 0, 0, 0, 0, 0, 0xAA,
    ];
    for frame in [keep_warm_store, family_17, corrupted, pt_real] {
        assert!(
            matches!(decode(&frame), GoveeBlePacket::Generic(_)),
            "{frame:02X?} must not decode"
        );
    }
}

/// Unknown program layouts must not fabricate a temperature.
#[test]
fn unknown_program_yields_no_temperature() {
    let p = NotifyRiceCookerProgramParams {
        program: 2,
        params: [0xFF; 16],
    };
    assert_eq!(p.set_temperature_centi_fahrenheit(), None);
}

#[test]
fn program_fields_stand_around_the_temperature() {
    let mut params = [0u8; 16];
    params[1] = 0x00;
    params[2] = 173;
    params[4] = 0x33;
    params[5] = 0x2C;
    params[6] = 0x02;
    params[7] = 0xD0;
    let rice = NotifyRiceCookerProgramParams { program: 1, params };
    assert_eq!(rice.set_temperature_centi_fahrenheit(), Some(13100));
    assert_eq!(rice.duration_minutes(), Some(720));
    assert_eq!(rice.scheduled_finish_in_minutes(), Some(173));

    let blank = NotifyRiceCookerProgramParams {
        program: 4,
        params: [0; 16],
    };
    assert_eq!(blank.set_temperature_centi_fahrenheit(), None);
    assert_eq!(blank.duration_minutes(), None);
    assert_eq!(blank.scheduled_finish_in_minutes(), None);

    let unknown = NotifyRiceCookerProgramParams { program: 5, params };
    assert_eq!(unknown.duration_minutes(), None);
    assert_eq!(unknown.scheduled_finish_in_minutes(), None);
}

#[test]
fn program_field_bounds_are_inclusive() {
    let with = |centi_f: u16, minutes: u16| {
        let mut params = [0u8; 16];
        params[5..7].copy_from_slice(&centi_f.to_be_bytes());
        params[7..9].copy_from_slice(&minutes.to_be_bytes());
        NotifyRiceCookerProgramParams { program: 3, params }
    };
    assert_eq!(with(3199, 0).set_temperature_centi_fahrenheit(), None);
    assert_eq!(with(3200, 0).set_temperature_centi_fahrenheit(), Some(3200));
    assert_eq!(with(23000, 0).set_temperature_centi_fahrenheit(), Some(23000));
    assert_eq!(with(23001, 0).set_temperature_centi_fahrenheit(), None);
    assert_eq!(with(0, 1).duration_minutes(), Some(1));
    assert_eq!(with(0, 1440).duration_minutes(), Some(1440));
    assert_eq!(with(0, 1441).duration_minutes(), None);
}

#[test]
fn program_names_and_ids() {
    assert_eq!(
        rice_cooker_program_options(),
        vec!["Standby", "Rice", "Saute", "Steam", "Slow Cook", "DIY"]
    );
    for program in 0..=255u8 {
        let name = rice_cooker_program_name(program);
        let expect = if program <= 5 { Some(program) } else { None };
        assert_eq!(rice_cooker_program_id(&name), expect);
    }
    assert_eq!(rice_cooker_program_name(6), "Program 6");
    assert_eq!(rice_cooker_program_name(240), "Program 240");
    assert_eq!(rice_cooker_program_id("rice"), None);
    assert_eq!(rice_cooker_program_id("Keep Warm"), None);
}

#[test]
fn set_program_command_is_one_frame() {
    let command = rice_cooker_set_program_command(3);
    assert_eq!(
        command.as_slice(),
        &[0x33, 0x05, 0x00, 0x03, 0, 0, 0, 0, 0, 0, 0, 0, 0, 0, 0, 0, 0, 0, 0, 0x35]
    );
    assert_eq!(command.base64(), vec!["MwUAAwAAAAAAAAAAAAAAAAAAADU="]);
}
