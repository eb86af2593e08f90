use govee_ble::base64::{Base64Error, Base64ErrorKind};
use govee_ble::frame::{calculate_checksum, finish};
use govee_ble::param::{btoi, itob};
use govee_ble::{
    Base64HexBytes, DecodePacketParam, GoveeBlePacket, HumidifierAutoMode, NotifyHumidifierMode,
    NotifyHumidifierNightlightParams, NotifyRiceCookerActiveProgram, NotifyRiceCookerProgramParams,
    NotifyRiceCookerProgramPhase, PacketCodec, PacketData, PacketError, PacketManager, PacketType,
    SetDevicePower, SetHumidifierMode, SetHumidifierNightlightParams, SetMusicPalette,
    SetSceneCode, TargetHumidity,
};
use std::any::TypeId;

fn padded(bytes: &[u8]) -> Vec<u8> {
    finish(bytes.to_vec())
}

#[test]
fn finish_pads_and_seals() {
    let frame = finish(vec![0x33, 0x01, 0x01]);
    assert_eq!(frame.len(), 20);
    assert_eq!(frame[19], 0x33);
    assert_eq!(calculate_checksum(&frame), 0);
    assert_eq!(finish(vec![]), vec![0; 20]);
}

#[test]
fn finish_cuts_but_counts_what_it_cuts() {
    let long: Vec<u8> = (1..=21).collect();
    let frame = finish(long.clone());
    assert_eq!(frame.len(), 20);
    assert_eq!(frame[..19], long[..19]);
    assert_eq!(frame[19], calculate_checksum(&long));
}

#[test]
fn with_bytes_finishes() {
    assert_eq!(
        Base64HexBytes::with_bytes(vec![0xaa, 0x05]).as_slice(),
        padded(&[0xaa, 0x05]).as_slice()
    );
}

#[test]
fn new_keeps_bytes_as_they_are() {
    let bytes = padded(&[0x33, 0x01, 1]);
    let hex = Base64HexBytes::new(bytes.clone());
    assert_eq!(hex.as_slice(), bytes.as_slice());
    assert_eq!(
        hex.decode_for_sku("Generic:Light"),
        GoveeBlePacket::SetDevicePower(SetDevicePower { on: true })
    );
    assert_eq!(Base64HexBytes::new(vec![7]).as_slice(), &[7]);
    assert_eq!(
        format!("{:?}", Base64HexBytes::new(vec![7, 255])),
        "Base64HexBytes([07, FF])"
    );
}

#[test]
fn set_program_mirrors_the_report() {
    for program in 0..=255u8 {
        let command = govee_ble::rice_cooker_set_program_command(program);
        let report = padded(&[0xaa, 0x05, 0x00, program]);
        assert_eq!(command.as_slice()[1..19], report[1..19]);
        assert_eq!(calculate_checksum(command.as_slice()), 0);
    }
}

#[test]
fn params_round_trip() {
    let mut target = vec![];
    0x1234u16.encode_param(&mut target);
    0x56u8.encode_param(&mut target);
    true.encode_param(&mut target);
    TargetHumidity::from_percent(40).encode_param(&mut target);
    assert_eq!(target, vec![0x34, 0x12, 0x56, 1, 168]);

    let (mut word, mut byte, mut flag) = (0u16, 0u8, false);
    let mut humidity = TargetHumidity::default();
    let rest = word.decode_param(&target).unwrap();
    let rest = byte.decode_param(rest).unwrap();
    let rest = flag.decode_param(rest).unwrap();
    let rest = humidity.decode_param(rest).unwrap();
    assert!(rest.is_empty());
    assert_eq!((word, byte, flag), (0x1234, 0x56, true));
    assert_eq!(humidity.as_percent(), 40);
}

#[test]
fn params_that_are_cut_off_change_nothing() {
    let mut word = 7u16;
    assert_eq!(word.decode_param(&[1]), Err(PacketError::Eof));
    assert_eq!(word, 7);
    let mut flag = true;
    assert_eq!(flag.decode_param(&[]), Err(PacketError::Eof));
    assert!(flag);
    assert!(flag.decode_param(&[0]).is_ok());
    assert!(!flag);
}

#[test]
fn flags_are_bytes() {
    assert_eq!((btoi(true), btoi(false)), (1, 0));
    assert!(itob(&1) && itob(&0x80) && !itob(&0));
}

#[test]
fn humidity_is_offset() {
    assert_eq!(TargetHumidity::from_percent(0).into_inner(), 128);
    assert_eq!(TargetHumidity::from_percent(100).into_inner(), 228);
    for percent in 0..=127 {
        let humidity = TargetHumidity::from_percent(percent);
        assert_eq!(humidity.as_percent(), percent);
        assert_eq!(u8::from(humidity), percent + 128);
    }
}

#[test]
fn nightlight_reports_turn_into_commands() {
    let report = NotifyHumidifierNightlightParams {
        on: true,
        r: 1,
        g: 2,
        b: 3,
        brightness: 4,
    };
    assert_eq!(
        SetHumidifierNightlightParams::from(report),
        SetHumidifierNightlightParams {
            on: true,
            r: 1,
            g: 2,
            b: 3,
            brightness: 4,
        }
    );
}

fn decoded<T: PacketData>(sku: &str, value: &T) -> GoveeBlePacket {
    let mut manager = PacketManager::new();
    let bytes = manager.encode_for_sku(sku, value).unwrap();
    assert_eq!(bytes.len(), 20);
    assert_eq!(calculate_checksum(&bytes), 0);
    manager.decode_for_sku(sku, &bytes)
}

#[test]
fn every_two_way_packet_round_trips() {
    let mode = SetHumidifierMode { mode: 3, param: 9 };
    assert_eq!(
        decoded("H7160", &mode),
        GoveeBlePacket::SetHumidifierMode(mode)
    );
    let mode = NotifyHumidifierMode { mode: 3, param: 9 };
    assert_eq!(
        decoded("H7160", &mode),
        GoveeBlePacket::NotifyHumidifierMode(mode)
    );
    let auto = HumidifierAutoMode {
        target_humidity: TargetHumidity::from_percent(55),
    };
    assert_eq!(
        decoded("H7160", &auto),
        GoveeBlePacket::NotifyHumidifierAutoMode(auto)
    );
    let light = NotifyHumidifierNightlightParams {
        on: false,
        r: 1,
        g: 2,
        b: 3,
        brightness: 4,
    };
    assert_eq!(
        decoded("H7160", &light),
        GoveeBlePacket::NotifyHumidifierNightlight(light)
    );
    let power = SetDevicePower { on: false };
    assert_eq!(
        decoded("Generic:Light", &power),
        GoveeBlePacket::SetDevicePower(power)
    );
}

#[test]
fn nightlight_fields_are_in_the_order_of_the_packet() {
    let light = SetHumidifierNightlightParams {
        on: true,
        r: 255,
        g: 69,
        b: 42,
        brightness: 100,
    };
    assert_eq!(
        light.encode().unwrap(),
        padded(&[0x33, 0x1b, 1, 100, 255, 69, 42])
    );
}

#[test]
fn defaults_are_zero() {
    assert_eq!(
        SetHumidifierMode::default(),
        SetHumidifierMode { mode: 0, param: 0 }
    );
    assert_eq!(TargetHumidity::default().into_inner(), 0);
    assert_eq!(
        SetMusicPalette::default(),
        SetMusicPalette {
            profile: 0,
            colors: vec![],
            sensitivity: 0
        }
    );
    assert_eq!(
        SetSceneCode::default(),
        SetSceneCode::new(0, String::new())
    );
    assert_eq!(
        NotifyRiceCookerActiveProgram::default(),
        NotifyRiceCookerActiveProgram { program: 0 }
    );
}

#[test]
fn layouts_name_what_is_wrong() {
    assert_eq!(
        SetHumidifierMode::decode(&[]),
        Err(PacketError::UnexpectedByte {
            expected: 0x33,
            found: None
        })
    );
    assert_eq!(
        SetHumidifierMode::decode(&padded(&[0x33, 0x06])),
        Err(PacketError::UnexpectedByte {
            expected: 0x05,
            found: Some(0x06)
        })
    );
    assert_eq!(
        SetHumidifierMode::decode(&[0x33, 0x05, 1, 0]),
        Err(PacketError::Eof)
    );
    assert_eq!(
        SetHumidifierMode::decode(&padded(&[0x33, 0x05, 1, 2, 0, 3])),
        Err(PacketError::NonzeroPadding)
    );
    // The checksum is not looked at, nor is the length.
    assert_eq!(
        SetHumidifierMode::decode(&[0x33, 0x05, 1, 2, 99]),
        Ok(GoveeBlePacket::SetHumidifierMode(SetHumidifierMode {
            mode: 1,
            param: 2
        }))
    );
    // Any byte but zero is on.
    assert_eq!(
        SetDevicePower::decode(&padded(&[0x33, 0x01, 7])),
        Ok(GoveeBlePacket::SetDevicePower(SetDevicePower { on: true }))
    );
}

#[test]
fn reports_name_what_is_wrong() {
    type Active = NotifyRiceCookerActiveProgram;
    assert_eq!(Active::decode(&[0xaa; 19]), Err(PacketError::ReportLength));
    assert_eq!(
        Active::decode(&padded(&[0xab, 0x05])),
        Err(PacketError::ReportMarker)
    );
    let mut broken = padded(&[0xaa, 0x05, 0x00, 0x01]);
    broken[19] ^= 1;
    assert_eq!(Active::decode(&broken), Err(PacketError::ReportChecksum));
    assert_eq!(
        Active::decode(&padded(&[0xaa, 0x05, 0x01])),
        Err(PacketError::NotActiveProgram)
    );
    assert_eq!(
        Active::decode(&padded(&[0xaa, 0x05, 0x00, 0x01, 0x01])),
        Err(PacketError::TrailingData)
    );
    assert_eq!(
        NotifyRiceCookerProgramPhase::decode(&padded(&[0xaa, 0x18])),
        Err(PacketError::NotProgramPhase)
    );
    assert_eq!(
        NotifyRiceCookerProgramPhase::decode(&padded(&[0xaa, 0x19, 1, 2, 3])),
        Err(PacketError::TrailingData)
    );
    assert_eq!(
        NotifyRiceCookerProgramParams::decode(&padded(&[0xaa, 0x19])),
        Err(PacketError::NotProgram)
    );
    assert_eq!(
        NotifyRiceCookerProgramParams::decode(&padded(&[0xaa, 0x05, 0x00])),
        Err(PacketError::ProgramZero)
    );
}

#[test]
fn every_changed_byte_spoils_a_report() {
    let report = padded(&[0xaa, 0x05, 0x01, 1, 2, 3, 4, 5, 6, 7, 8, 9, 10, 11, 12, 13, 14, 15, 16]);
    let mut manager = PacketManager::new();
    assert_eq!(
        manager.decode_for_sku("H7180", &report),
        GoveeBlePacket::NotifyRiceCookerProgramParams(NotifyRiceCookerProgramParams {
            program: 1,
            params: [1, 2, 3, 4, 5, 6, 7, 8, 9, 10, 11, 12, 13, 14, 15, 16],
        })
    );
    for i in 0..20 {
        let mut changed = report.clone();
        changed[i] ^= 0x10;
        assert!(matches!(
            manager.decode_for_sku("H7180", &changed),
            GoveeBlePacket::Generic(bytes) if bytes.as_slice() == changed
        ));
    }
}

#[test]
fn one_way_packets_refuse_the_other_way() {
    let no_encoder = |packet_type| Err(PacketError::NoEncoder { packet_type });
    let mut manager = PacketManager::new();
    assert_eq!(
        manager.encode_for_sku("H7180", &NotifyRiceCookerActiveProgram { program: 1 }),
        no_encoder(PacketType::NotifyRiceCookerActiveProgram)
    );
    assert_eq!(
        manager.encode_for_sku(
            "H7180",
            &NotifyRiceCookerProgramPhase {
                program: 1,
                phase: 2
            }
        ),
        no_encoder(PacketType::NotifyRiceCookerProgramPhase)
    );
    assert_eq!(
        manager.encode_for_sku(
            "H7180",
            &NotifyRiceCookerProgramParams {
                program: 1,
                params: [0; 16]
            }
        ),
        no_encoder(PacketType::NotifyRiceCookerProgramParams)
    );
    assert_eq!(
        SetSceneCode::decode(&[]),
        Err(PacketError::NoDecoder {
            packet_type: PacketType::SetSceneCode
        })
    );
    assert_eq!(
        SetMusicPalette::decode(&[]),
        Err(PacketError::NoDecoder {
            packet_type: PacketType::SetMusicPalette
        })
    );
}

#[test]
fn skus_only_have_their_own_codecs() {
    let mut manager = PacketManager::new();
    let power = SetDevicePower { on: true };
    for sku in ["H7160", "H7180", "H6072", ""] {
        assert_eq!(
            manager.encode_for_sku(sku, &power),
            Err(PacketError::NoCodec {
                sku: sku.to_string(),
                packet_type: PacketType::SetDevicePower
            })
        );
        let frame = power.encode().unwrap();
        assert!(matches!(
            manager.decode_for_sku(sku, &frame),
            GoveeBlePacket::Generic(bytes) if bytes.as_slice() == frame
        ));
    }
    // Asking again gives the same answer.
    for _ in 0..2 {
        assert!(manager.encode_for_sku("Generic:Light", &power).is_ok());
    }
}

#[test]
fn fragments_are_not_decoded() {
    let palette = SetMusicPalette {
        profile: 1,
        colors: vec![[1, 2, 3]],
        sensitivity: 50,
    };
    let scene = SetSceneCode::new(1, "AQID".to_string());
    let encoded = [
        Base64HexBytes::encode_for_sku("Generic:Light", &palette).unwrap(),
        Base64HexBytes::encode_for_sku("Generic:Light", &scene).unwrap(),
    ];
    for hex in encoded {
        assert!(matches!(
            hex.decode_for_sku("Generic:Light"),
            GoveeBlePacket::Generic(bytes) if bytes.as_slice() == hex.as_slice()
        ));
    }
}

#[test]
fn codecs_take_packets_of_their_type_only() {
    let codec = PacketCodec::new(&["A", "B"], SetDevicePower::encode, SetDevicePower::decode);
    assert!(codec.supports_sku("A") && codec.supports_sku("B"));
    assert!(!codec.supports_sku("C") && !codec.supports_sku("AB"));
    let power = SetDevicePower { on: true };
    assert_eq!(codec.encode(power.as_any()), power.encode());
    let mode = SetHumidifierMode { mode: 1, param: 2 };
    assert_eq!(
        codec.encode(mode.as_any()),
        Err(PacketError::WrongType {
            packet_type: PacketType::SetDevicePower
        })
    );
    assert_eq!(
        codec.decode(&power.encode().unwrap()),
        Ok(GoveeBlePacket::SetDevicePower(power))
    );
}

fn scene_lines(len: usize) -> Vec<u8> {
    let bytes: Vec<u8> = (0..len).map(|i| i as u8).collect();
    govee_ble::scene::encode_scene(0x1234, &bytes)
}

#[test]
fn short_scenes_are_one_line() {
    assert_eq!(
        scene_lines(0),
        [
            padded(&[0xa3, 0xff, 1, 1, 2]),
            padded(&[0x33, 0x05, 0x04, 0x34, 0x12])
        ]
        .concat()
    );
    let full = scene_lines(14);
    assert_eq!(full.len(), 40);
    assert_eq!(full[..5], [0xa3, 0xff, 1, 1, 2]);
    assert_eq!(full[18], 13);
    let spilled = scene_lines(15);
    assert_eq!(spilled.len(), 60);
    assert_eq!(spilled[..5], [0xa3, 0, 1, 2, 2]);
    assert_eq!(spilled[20..23], [0xa3, 0xff, 14]);
}

#[test]
fn long_scenes_can_be_put_together_again() {
    for len in [16, 31, 32, 100, 4331, 4332] {
        let frames = scene_lines(len);
        let lines = frames.len() / 20 - 1;
        assert_eq!(frames[3] as usize, lines);
        for (i, frame) in frames.chunks(20).enumerate() {
            assert_eq!(calculate_checksum(frame), 0);
            if i < lines {
                assert_eq!(frame[0], 0xa3);
                assert_eq!(frame[1] as usize, if i + 1 == lines { 255 } else { i });
            }
        }
        let stream: Vec<u8> = frames[..20 * lines]
            .chunks(20)
            .flat_map(|frame| frame[2..19].to_vec())
            .collect();
        for k in 0..len {
            assert_eq!(stream[k + 3], k as u8);
        }
    }
}

#[test]
fn scenes_that_are_too_long_are_left_out() {
    // 1444 groups of four characters stand for 4332 bytes.
    let longest = SetSceneCode::new(1, "AAAA".repeat(1444));
    assert_eq!(longest.checked_encode().unwrap().unwrap().len(), 256 * 20);
    let too_long = SetSceneCode::new(1, "AAAA".repeat(1445));
    assert!(!too_long.is_encodable());
    assert_eq!(too_long.checked_encode(), None);
    assert!(Base64HexBytes::checked_encode_for_sku("Generic:Light", &too_long).is_none());
    assert!(matches!(
        Base64HexBytes::checked_encode_for_sku("H7160", &too_long),
        Some(Err(PacketError::NoCodec { .. }))
    ));
    let mut manager = PacketManager::new();
    assert!(manager
        .checked_encode_for_sku("Generic:Light", &too_long)
        .is_none());
    assert_eq!(
        manager.checked_encode_for_sku("Generic:Light", &longest),
        longest.checked_encode()
    );
    // A long text that is not Base64 is an error, as a short one is.
    let wrong = SetSceneCode::new(1, "AAAA".repeat(1445) + "!");
    assert!(matches!(
        wrong.checked_encode(),
        Some(Err(PacketError::Base64 { .. }))
    ));
    // Padded groups stand for fewer bytes.
    let padded_groups = SetSceneCode::new(1, "AA==".repeat(1445));
    assert!(padded_groups.checked_encode().unwrap().is_ok());
}

#[test]
fn scene_parameters_have_to_be_base64() {
    let kinds = [
        ("AAA", 0, Base64ErrorKind::Length),
        ("A!AA", 1, Base64ErrorKind::Symbol),
        ("AB==", 1, Base64ErrorKind::Trailing),
        ("A===", 1, Base64ErrorKind::Padding),
    ];
    for (param, position, kind) in kinds {
        assert_eq!(
            SetSceneCode::new(1, param.to_string()).encode(),
            Err(PacketError::Base64 {
                error: Base64Error { position, kind }
            })
        );
    }
}

#[test]
fn base64_texts_give_the_frames_back() {
    let bytes: Vec<u8> = (0..45).collect();
    let palette = SetMusicPalette {
        profile: 1,
        colors: vec![[1, 2, 3], [4, 5, 6]],
        sensitivity: 50,
    };
    let hex = Base64HexBytes::encode_for_sku("Generic:Light", &palette).unwrap();
    let mut joined = vec![];
    for text in hex.base64() {
        assert_eq!(text.len(), 28);
        joined.extend_from_slice(Base64HexBytes::from_base64(&text).unwrap().as_slice());
    }
    assert_eq!(joined, hex.as_slice());

    // The last run may be shorter than a frame.
    let text = data_encoding::BASE64.encode(&bytes);
    let odd = Base64HexBytes::from_base64(&text).unwrap();
    assert_eq!(odd.as_slice(), bytes.as_slice());
    let texts = odd.base64();
    assert_eq!(texts.len(), 3);
    assert_eq!(texts[2], data_encoding::BASE64.encode(&bytes[40..]));
    assert!(Base64HexBytes::from_base64("").unwrap().base64().is_empty());
}

#[test]
fn texts_that_were_read_are_written_again() {
    for text in ["AA==", "AAA=", "AAAA", "MwUAAwAAAAAAAAAAAAAAAAAAADU="] {
        let hex = Base64HexBytes::from_base64(text).unwrap();
        assert_eq!(hex.base64(), vec![text]);
    }
    // Padded groups that were joined are read, but written as one.
    let joined = Base64HexBytes::from_base64("AA==AA==").unwrap();
    assert_eq!(joined.as_slice(), &[0, 0]);
    assert_eq!(joined.base64(), vec!["AAA="]);
}

#[test]
fn maps_list_the_types_of_a_sku() {
    let humidifier = [
        PacketType::SetHumidifierMode,
        PacketType::NotifyHumidifierMode,
        PacketType::HumidifierAutoMode,
        PacketType::NotifyHumidifierNightlightParams,
        PacketType::SetHumidifierNightlightParams,
    ];
    let cooker = [
        PacketType::NotifyRiceCookerActiveProgram,
        PacketType::NotifyRiceCookerProgramPhase,
        PacketType::NotifyRiceCookerProgramParams,
    ];
    let light = [
        PacketType::SetSceneCode,
        PacketType::SetMusicPalette,
        PacketType::SetDevicePower,
    ];
    let expected: [(&str, &[PacketType]); 5] = [
        ("H7160", &humidifier),
        ("H7180", &cooker),
        ("Generic:Light", &light),
        ("H6072", &[]),
        ("", &[]),
    ];
    let mut manager = PacketManager::new();
    // The second time the maps are already there.
    for _ in 0..2 {
        for (sku, types) in expected {
            let (map, codecs) = manager.map_for_sku(sku);
            let mut keys: Vec<u8> = map.keys().copied().collect();
            let mut expected_keys: Vec<u8> = types.iter().map(|t| t.key()).collect();
            keys.sort();
            expected_keys.sort();
            assert_eq!(keys, expected_keys);
            for place in map.values() {
                assert!(codecs[*place].supports_sku(sku));
            }
        }
    }
}

#[test]
fn encodings_are_sealed_frames() {
    let light = NotifyHumidifierNightlightParams {
        on: true,
        r: 1,
        g: 2,
        b: 3,
        brightness: 4,
    };
    let palette = SetMusicPalette {
        profile: 1,
        colors: vec![[9, 8, 7]; 7],
        sensitivity: 50,
    };
    let encodings = [
        SetHumidifierMode { mode: 1, param: 2 }.encode(),
        NotifyHumidifierMode { mode: 1, param: 2 }.encode(),
        HumidifierAutoMode {
            target_humidity: TargetHumidity::from_percent(50),
        }
        .encode(),
        light.encode(),
        SetHumidifierNightlightParams::from(light).encode(),
        SetDevicePower { on: true }.encode(),
        SetSceneCode::new(7, "AQID".repeat(30)).encode(),
        palette.encode(),
    ];
    for bytes in encodings {
        let bytes = bytes.unwrap();
        assert!(!bytes.is_empty() && bytes.len() % 20 == 0);
        for frame in bytes.chunks(20) {
            assert_eq!(calculate_checksum(frame), 0);
            assert!(matches!(frame[0], 0x33 | 0xaa | 0xa3));
        }
    }
}

#[test]
fn base64_errors_are_described() {
    let error = Base64HexBytes::from_base64("A!AA").err().unwrap();
    assert_eq!(error.message(), "invalid symbol at 1");
    for text in ["AAA", "A!AA", "AB==", "A==="] {
        let expect = data_encoding::BASE64.decode(text.as_bytes()).unwrap_err();
        let error = Base64HexBytes::from_base64(text).err().unwrap();
        assert_eq!(error.message(), format!("{expect:#}"));
    }
}

#[test]
fn generic_bytes_print_in_hexadecimal() {
    let mut manager = PacketManager::new();
    match manager.decode_for_sku("H7180", &[0xab, 0x00, 0x0f]) {
        GoveeBlePacket::Generic(bytes) => {
            assert_eq!(bytes.to_hex(), format!("{:02X?}", vec![0xab, 0x00, 0x0f]));
            assert_eq!(bytes.to_hex(), "[AB, 00, 0F]");
            assert_eq!(format!("{bytes:?}"), "[AB, 00, 0F]");
            assert_eq!(format!("{bytes:#?}"), "[AB, 00, 0F]");
            let packet = GoveeBlePacket::Generic(bytes);
            assert_eq!(format!("{packet:?}"), "Generic([AB, 00, 0F])");
        }
        other => panic!("expected bytes, got {other:?}"),
    }
    match manager.decode_for_sku("H7180", &[]) {
        GoveeBlePacket::Generic(bytes) => assert_eq!(bytes.to_hex(), "[]"),
        other => panic!("expected bytes, got {other:?}"),
    }
}

#[test]
fn errors_are_described() {
    let palette = |colors: usize, sensitivity| SetMusicPalette {
        profile: 0,
        colors: vec![[0, 0, 0]; colors],
        sensitivity,
    };
    assert_eq!(
        palette(8, 0).encode().unwrap_err().message(),
        "music palette wants 1..=7 colours, got 8"
    );
    assert_eq!(
        palette(7, 101).encode().unwrap_err().message(),
        "sensitivity is a percentage, got 101"
    );
    // The palette is looked at first.
    assert_eq!(
        palette(0, 101).encode(),
        Err(PacketError::PaletteSize { colors: 0 })
    );
    let mut manager = PacketManager::new();
    assert_eq!(
        manager
            .encode_for_sku("H7180", &SetDevicePower { on: true })
            .unwrap_err()
            .message(),
        format!(
            "sku H7180 has no codec for type {:?}",
            TypeId::of::<SetDevicePower>()
        )
    );
    assert_eq!(
        SetDevicePower::decode(&[0x33, 0x02, 0])
            .unwrap_err()
            .message(),
        "expected 1 but got Some(2)"
    );
    assert_eq!(
        SetDevicePower::decode(&[0x33, 0]).unwrap_err().message(),
        "expected 1 but got None"
    );
    assert_eq!(PacketError::Eof.message(), "EOF");
    assert_eq!(
        SetSceneCode::decode(&[]).unwrap_err().message(),
        "SetSceneCode::decode is not implemented"
    );
    assert_eq!(
        NotifyRiceCookerActiveProgram { program: 0 }
            .encode()
            .unwrap_err()
            .message(),
        "NotifyRiceCookerActiveProgram is a device report; no encoder"
    );
    assert_eq!(
        PacketError::WrongType {
            packet_type: PacketType::SetDevicePower
        }
        .message(),
        format!(
            "cannot downcast to {:?} in PacketCodec encoder",
            TypeId::of::<SetDevicePower>()
        )
    );
    assert_eq!(
        PacketError::WrongType {
            packet_type: PacketType::SetDevicePower
        }
        .message_with("X"),
        "cannot downcast to X in PacketCodec encoder"
    );
    assert_eq!(
        SetHumidifierMode::decode(&padded(&[0x33, 0x05, 1, 2, 0, 3]))
            .unwrap_err()
            .message(),
        "Condition failed: `data [0] == 0`"
    );
}
