use key_lib::codes::{
    max_len, HidScanCodeType, ScanCodeBehavior, ScanCodeLayerStorage, SerializationError,
    MAX_SERIAL_LENGTH,
};
use key_lib::scan_codes::{KeyCodes, ReportCodes};

fn variants() -> Vec<(ScanCodeBehavior, Vec<u8>)> {
    vec![
        (ScanCodeBehavior::Single(KeyCodes::KeyboardAa), vec![0, 0x04]),
        (
            ScanCodeBehavior::Double(KeyCodes::KeyboardLeftShift, KeyCodes::Keyboard1Exclamation),
            vec![1, 0xE1, 0x1E],
        ),
        (
            ScanCodeBehavior::Triple(
                KeyCodes::KeyboardLeftControl,
                KeyCodes::KeyboardLeftAlt,
                KeyCodes::KeyboardDelete,
            ),
            vec![2, 0xE0, 0xE2, 0x4C],
        ),
        (
            ScanCodeBehavior::CombinedKey {
                other_index: 34,
                normal_code: KeyCodes::Layer1,
                combined_code: KeyCodes::Layer3,
            },
            vec![3, 0xF2, 0xF4, 34],
        ),
        (ScanCodeBehavior::ChangeConfig(2), vec![4, 2]),
    ]
}

#[test]
fn every_variant_encodes_to_its_bytes() {
    for (cell, bytes) in variants() {
        let mut buffer = vec![0xAAu8; bytes.len()];
        assert_eq!(cell.into_buffer_len(), bytes.len());
        assert_eq!(cell.into_buffer(&mut buffer), Ok(()));
        assert_eq!(buffer, bytes);
    }
}

#[test]
fn every_variant_round_trips() {
    for (cell, bytes) in variants() {
        assert_eq!(ScanCodeBehavior::deserialize_from(&bytes), Ok(cell));
    }
}

#[test]
fn buffer_of_exact_length_is_taken_and_one_shorter_refused() {
    for (cell, bytes) in variants() {
        let mut exact = vec![0u8; bytes.len()];
        assert_eq!(cell.into_buffer(&mut exact), Ok(()));
        let mut short = vec![0x55u8; bytes.len() - 1];
        assert_eq!(cell.into_buffer(&mut short), Err(SerializationError::BufferTooSmall));
        assert_eq!(short, vec![0x55u8; bytes.len() - 1]);
    }
}

#[test]
fn encoding_leaves_the_rest_of_the_buffer_alone() {
    let cell = ScanCodeBehavior::ChangeConfig(7);
    let mut buffer = [9u8; 5];
    assert_eq!(cell.serialize_into(&mut buffer), Ok(2));
    assert_eq!(buffer, [4, 7, 9, 9, 9]);
}

#[test]
fn write_at_writes_in_the_middle() {
    let cell = ScanCodeBehavior::Single(KeyCodes::KeyboardZz);
    let mut buffer = [9u8; 5];
    cell.write_at(&mut buffer, 2);
    assert_eq!(buffer, [9, 9, 0, 0x1D, 9]);
}

#[test]
fn unknown_tag_is_invalid_format() {
    assert_eq!(
        ScanCodeBehavior::deserialize_from(&[5, 1, 2, 3]),
        Err(SerializationError::InvalidFormat)
    );
    assert_eq!(
        ScanCodeBehavior::deserialize_from(&[255]),
        Err(SerializationError::InvalidFormat)
    );
}

#[test]
fn known_tag_with_too_few_bytes_is_buffer_too_small() {
    assert_eq!(ScanCodeBehavior::deserialize_from(&[0]), Err(SerializationError::BufferTooSmall));
    assert_eq!(
        ScanCodeBehavior::deserialize_from(&[2, 4, 5]),
        Err(SerializationError::BufferTooSmall)
    );
    assert_eq!(
        ScanCodeBehavior::deserialize_from(&[3, 4, 5]),
        Err(SerializationError::BufferTooSmall)
    );
}

#[test]
fn decoding_ignores_what_follows_the_cell() {
    assert_eq!(
        ScanCodeBehavior::deserialize_from(&[0, 0x2C, 77, 78]),
        Ok(ScanCodeBehavior::Single(KeyCodes::KeyboardSpacebar))
    );
}

#[test]
fn unused_usage_reads_as_undefined() {
    assert_eq!(
        ScanCodeBehavior::deserialize_from(&[0, 0x99]),
        Ok(ScanCodeBehavior::Single(KeyCodes::Undefined))
    );
}

#[test]
fn combined_key_index_keeps_its_low_byte_only() {
    let cell = ScanCodeBehavior::CombinedKey {
        other_index: 256 + 5,
        normal_code: KeyCodes::KeyboardAa,
        combined_code: KeyCodes::KeyboardBb,
    };
    let mut buffer = [0u8; 4];
    assert_eq!(cell.into_buffer(&mut buffer), Ok(()));
    assert_eq!(buffer, [3, 4, 5, 5]);
}

#[test]
fn default_cell_is_an_undefined_single() {
    assert_eq!(ScanCodeBehavior::default(), ScanCodeBehavior::Single(KeyCodes::Undefined));
}

#[test]
fn tag_types_have_their_lengths() {
    assert_eq!(HidScanCodeType::Single.get_len(), 2);
    assert_eq!(HidScanCodeType::Double.get_len(), 3);
    assert_eq!(HidScanCodeType::Triple.get_len(), 4);
    assert_eq!(HidScanCodeType::CombinedKey.get_len(), 4);
    assert_eq!(HidScanCodeType::ChangeConfig.get_len(), 2);
    assert_eq!(MAX_SERIAL_LENGTH, 4);
    assert_eq!(max_len(&[2, 3, 4, 4, 2]), MAX_SERIAL_LENGTH);
}

#[test]
fn tags_are_read_from_bytes() {
    assert_eq!(HidScanCodeType::try_from_primitive(0), Ok(HidScanCodeType::Single));
    assert_eq!(HidScanCodeType::try_from_primitive(4), Ok(HidScanCodeType::ChangeConfig));
    assert_eq!(HidScanCodeType::try_from_primitive(5), Err(5));
    assert_eq!(HidScanCodeType::CombinedKey.to_u8(), 3);
    assert_eq!(ScanCodeBehavior::ChangeConfig(1).hid_type(), HidScanCodeType::ChangeConfig);
}

#[test]
fn max_len_of_nothing_is_zero() {
    assert_eq!(max_len(&[]), 0);
    assert_eq!(max_len(&[7]), 7);
    assert_eq!(max_len(&[1, 9, 3]), 9);
}

#[test]
fn table_round_trips_in_order() {
    let table = ScanCodeLayerStorage::<5> {
        codes: [
            ScanCodeBehavior::Single(KeyCodes::KeyboardAa),
            ScanCodeBehavior::Triple(
                KeyCodes::KeyboardBb,
                KeyCodes::KeyboardCc,
                KeyCodes::KeyboardDd,
            ),
            ScanCodeBehavior::ChangeConfig(1),
            ScanCodeBehavior::CombinedKey {
                other_index: 0,
                normal_code: KeyCodes::Layer1,
                combined_code: KeyCodes::Layer2,
            },
            ScanCodeBehavior::Double(KeyCodes::KeyboardLeftShift, KeyCodes::KeyboardEe),
        ],
    };
    let mut buffer = [0u8; 15];
    assert_eq!(table.serialize_into(&mut buffer), Ok(15));
    assert_eq!(buffer, [0, 4, 2, 5, 6, 7, 4, 1, 3, 0xF2, 0xF3, 0, 1, 0xE1, 8]);
    let back = ScanCodeLayerStorage::<5>::deserialize_from(&buffer).unwrap();
    assert_eq!(back, table);
    assert!(back.same_codes(&table));
}

#[test]
fn table_needs_room_for_every_cell() {
    let table = ScanCodeLayerStorage::<3>::default();
    let mut buffer = [7u8; 5];
    assert_eq!(table.serialize_into(&mut buffer), Err(SerializationError::BufferTooSmall));
    assert_eq!(buffer, [7u8; 5]);
    let mut buffer = [7u8; 8];
    assert_eq!(table.serialize_into(&mut buffer), Ok(6));
    assert_eq!(buffer, [0, 0, 0, 0, 0, 0, 7, 7]);
}

#[test]
fn short_table_leaves_the_other_cells_default() {
    let back = ScanCodeLayerStorage::<3>::deserialize_from(&[4, 9]).unwrap();
    assert_eq!(
        back.codes,
        [
            ScanCodeBehavior::ChangeConfig(9),
            ScanCodeBehavior::Single(KeyCodes::Undefined),
            ScanCodeBehavior::Single(KeyCodes::Undefined),
        ]
    );
    let empty = ScanCodeLayerStorage::<2>::deserialize_from(&[]).unwrap();
    assert_eq!(empty, ScanCodeLayerStorage::<2>::default());
}

#[test]
fn table_decode_passes_on_the_first_error() {
    assert_eq!(
        ScanCodeLayerStorage::<4>::deserialize_from(&[0, 4, 9, 9]),
        Err(SerializationError::InvalidFormat)
    );
    assert_eq!(
        ScanCodeLayerStorage::<4>::deserialize_from(&[0, 4, 1, 9]),
        Err(SerializationError::BufferTooSmall)
    );
}

#[test]
fn table_with_more_cells_than_keys_is_invalid() {
    assert_eq!(
        ScanCodeLayerStorage::<1>::deserialize_from(&[0, 4, 0, 5]),
        Err(SerializationError::InvalidFormat)
    );
    assert_eq!(
        ScanCodeLayerStorage::<2>::deserialize_from(&[0, 4, 0, 5, 4, 6]),
        Err(SerializationError::InvalidFormat)
    );
    assert_eq!(
        ScanCodeLayerStorage::<0>::deserialize_from(&[0, 4]),
        Err(SerializationError::InvalidFormat)
    );
    assert_eq!(
        ScanCodeLayerStorage::<0>::deserialize_from(&[]),
        Ok(ScanCodeLayerStorage::<0> { codes: [] })
    );
    // What follows the cells of all keys and does not decode gives its own
    // error.
    assert_eq!(
        ScanCodeLayerStorage::<2>::deserialize_from(&[0, 4, 0, 5, 0]),
        Err(SerializationError::BufferTooSmall)
    );
    assert_eq!(
        ScanCodeLayerStorage::<2>::deserialize_from(&[0, 4, 0, 5, 9, 9]),
        Err(SerializationError::InvalidFormat)
    );
    assert_eq!(
        ScanCodeLayerStorage::<2>::deserialize_from(&[0, 4, 0, 5]),
        Ok(ScanCodeLayerStorage {
            codes: [
                ScanCodeBehavior::Single(KeyCodes::KeyboardAa),
                ScanCodeBehavior::Single(KeyCodes::KeyboardBb),
            ]
        })
    );
}

#[test]
fn empty_buffer_is_too_small_for_a_cell() {
    assert_eq!(ScanCodeBehavior::deserialize_from(&[]), Err(SerializationError::BufferTooSmall));
}

#[test]
fn key_codes_round_trip_through_their_usage() {
    for byte in 0..=255u8 {
        let code = KeyCodes::from_u8(byte);
        if code != KeyCodes::Undefined {
            assert_eq!(code.to_u8(), byte);
        }
        assert_eq!(KeyCodes::from_u8(code.to_u8()), code);
    }
    assert_eq!(KeyCodes::KeyboardAa.to_u8(), 0x04);
    assert_eq!(KeyCodes::KeyboardZz.to_u8(), 0x1D);
    assert_eq!(KeyCodes::KeyboardLeftControl.to_u8(), 0xE0);
    assert_eq!(KeyCodes::KeyboardRightGUI.to_u8(), 0xE7);
    assert_eq!(KeyCodes::Undefined.to_u8(), 0);
}

#[test]
fn key_codes_become_report_codes() {
    assert_eq!(KeyCodes::KeyboardAa.to_report_code(), ReportCodes::Letter(4));
    assert_eq!(KeyCodes::Undefined.to_report_code(), ReportCodes::Letter(0));
    assert_eq!(KeyCodes::KeyboardLeftShift.to_report_code(), ReportCodes::Modifier(0xE1));
    assert_eq!(KeyCodes::MouseLeftClick.to_report_code(), ReportCodes::MouseButton(0));
    assert_eq!(KeyCodes::MouseMiddleClick.to_report_code(), ReportCodes::MouseButton(2));
    assert_eq!(KeyCodes::MouseXPos.to_report_code(), ReportCodes::MouseX(5));
    assert_eq!(KeyCodes::MouseXNeg.to_report_code(), ReportCodes::MouseX(-5));
    assert_eq!(KeyCodes::MouseYNeg.to_report_code(), ReportCodes::MouseY(-5));
    assert_eq!(KeyCodes::MouseScrollPos.to_report_code(), ReportCodes::MouseScroll(1));
    assert_eq!(KeyCodes::MouseScrollNeg.to_report_code(), ReportCodes::MouseScroll(-1));
    assert_eq!(KeyCodes::Layer3.to_report_code(), ReportCodes::Layer(3));
    assert_eq!(KeyCodes::LayerToggle2.to_report_code(), ReportCodes::LayerToggle(2));
    assert_eq!(KeyCodes::KeyboardVolumeUp.to_report_code(), ReportCodes::Letter(0x80));
}
