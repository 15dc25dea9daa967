//! Tests of the command codec and of the per-operation transport plans.

use cbkbd::codec::build_plane_payload;
use cbkbd::codec::decode_get_colors_response;
use cbkbd::codec::encode_get_colors;
use cbkbd::codec::encode_set_colors;
use cbkbd::codec::encode_set_effect;
use cbkbd::codec::encode_set_matrix_plane;
use cbkbd::color::RGB;
use cbkbd::error::CbError;
use cbkbd::modes::CbBrightness;
use cbkbd::modes::CbColor;
use cbkbd::modes::CbEffect;
use cbkbd::session::HidAction;
use cbkbd::session::get_colors_actions;
use cbkbd::session::is_lighting_interface;
use cbkbd::session::set_colors_actions;
use cbkbd::session::set_effect_actions;
use cbkbd::session::set_matrix_actions;

fn seven_colors() -> [RGB; 7] {
    [
        RGB::new(255, 0, 0),
        RGB::new(80, 170, 255),
        RGB::new(0, 0, 255),
        RGB::new(255, 255, 0),
        RGB::new(0, 255, 255),
        RGB::new(255, 0, 255),
        RGB::new(255, 255, 255),
    ]
}

#[test]
fn encode_set_colors_layout() {
    let (command, payload) = encode_set_colors(&seven_colors());
    assert_eq!(command, [0x00, 0x30, 0x00, 0x00, 0x00, 0x00, 0x55, 0xAA, 0x00]);
    assert_eq!(payload.len(), 64);
    // Byte 0 is reserved; zones start at offset 1, three wire bytes each.
    let expected_zones: [u8; 21] = [
        63, 0, 0, // (255, 0, 0)
        20, 42, 63, // (80, 170, 255)
        0, 0, 63, // (0, 0, 255)
        63, 63, 0, // (255, 255, 0)
        0, 63, 63, // (0, 255, 255)
        63, 0, 63, // (255, 0, 255)
        63, 63, 63, // (255, 255, 255)
    ];
    assert_eq!(payload[0], 0);
    assert_eq!(&payload[1..22], &expected_zones);
    for k in 22..64 {
        assert_eq!(payload[k], 0);
    }
}

#[test]
fn encode_get_colors_layout() {
    let command = encode_get_colors();
    assert_eq!(command, [0x00, 0xB0, 0x00, 0x00, 0x00, 0x00, 0x55, 0xAA, 0x00]);
}

#[test]
fn decode_get_colors_response_expands_zones() {
    let mut raw = [0u8; 21];
    raw[0] = 63;
    raw[1] = 63;
    raw[2] = 63;
    let group = decode_get_colors_response(&raw).unwrap();
    assert_eq!(group[0], RGB::new(255, 255, 255));
    for zone in 1..7 {
        assert_eq!(group[zone], RGB::new(0, 0, 0));
    }
}

#[test]
fn decode_get_colors_response_reads_consecutive_triples() {
    let raw: [u8; 21] = [
        1, 2, 3, 4, 5, 6, 7, 8, 9, 10, 11, 12, 13, 14, 15, 16, 17, 18, 19, 20, 21,
    ];
    let group = decode_get_colors_response(&raw).unwrap();
    for zone in 0..7 {
        let expand = |v: u8| (v << 2) | (v >> 4);
        let base = (zone * 3) as u8;
        assert_eq!(
            group[zone],
            RGB::new(expand(base + 1), expand(base + 2), expand(base + 3))
        );
    }
}

#[test]
fn decode_get_colors_response_rejects_short_buffers() {
    let raw = [63u8; 20];
    let err = decode_get_colors_response(&raw).unwrap_err();
    assert!(matches!(err, CbError::ProtocolError(_)));
    let empty: [u8; 0] = [];
    assert!(matches!(
        decode_get_colors_response(&empty),
        Err(CbError::ProtocolError(_))
    ));
}

#[test]
fn decode_get_colors_response_accepts_longer_buffers() {
    let raw = [0u8; 32];
    let group = decode_get_colors_response(&raw).unwrap();
    assert_eq!(group.len(), 7);
}

#[test]
fn encode_set_effect_raindrop() {
    let command = encode_set_effect(CbEffect::RainDrop, CbBrightness::Level7, 0x04, CbColor::Color2);
    assert_eq!(command, [0x00, 0x08, 0x08, 0x3F, 0x04, 0x00, 0x01, 0xC4, 0x3B]);
}

#[test]
fn encode_set_matrix_plane_layout() {
    assert_eq!(
        encode_set_matrix_plane(0, true),
        [0x00, 0x12, 0x00, 0x00, 0x00, 0x00, 0x55, 0xAA, 0x00]
    );
    assert_eq!(
        encode_set_matrix_plane(3, false),
        [0x00, 0x12, 0x00, 0xFF, 0x03, 0x00, 0x55, 0xAA, 0x00]
    );
}

#[test]
fn mode_plane_payload_is_constant() {
    let red_matrix = [RGB::new(255, 0, 0); 84];
    let blue_matrix = [RGB::new(0, 0, 255); 84];
    let a = build_plane_payload(0, &red_matrix);
    let b = build_plane_payload(0, &blue_matrix);
    assert_eq!(a, b);
    for k in 0..84 {
        assert_eq!(a[k], 0x10);
    }
    for k in 84..128 {
        assert_eq!(a[k], 0x00);
    }
}

#[test]
fn color_plane_payloads_carry_wire_channels() {
    let mut matrix = [RGB::new(0, 0, 0); 84];
    matrix[0] = RGB::new(255, 80, 3);
    matrix[83] = RGB::new(3, 255, 80);
    let red = build_plane_payload(1, &matrix);
    let green = build_plane_payload(2, &matrix);
    let blue = build_plane_payload(3, &matrix);
    assert_eq!((red[0], green[0], blue[0]), (63, 20, 0));
    assert_eq!((red[83], green[83], blue[83]), (0, 63, 20));
    for k in 1..83 {
        assert_eq!((red[k], green[k], blue[k]), (0, 0, 0));
    }
    for k in 84..128 {
        assert_eq!((red[k], green[k], blue[k]), (0, 0, 0));
    }
}

#[test]
fn set_colors_plan_has_handshake_and_pacing() {
    let actions = set_colors_actions(&seven_colors());
    assert_eq!(actions.len(), 4);
    match &actions[0] {
        HidAction::SendFeatureReport(b) => {
            assert_eq!(&b[..], &[0x00, 0x30, 0x00, 0x00, 0x00, 0x00, 0x55, 0xAA, 0x00]);
        }
        _ => panic!("step 0 must send the command"),
    }
    assert!(matches!(actions[1], HidAction::GetFeatureReport(9)));
    match &actions[2] {
        HidAction::WriteReport(b) => {
            assert_eq!(b.len(), 64);
            assert_eq!(b[1], 63);
        }
        _ => panic!("step 2 must write the payload"),
    }
    assert!(matches!(actions[3], HidAction::PauseMillis(5)));
}

#[test]
fn get_colors_plan_reads_back_21_bytes() {
    let actions = get_colors_actions();
    assert_eq!(actions.len(), 3);
    match &actions[0] {
        HidAction::SendFeatureReport(b) => {
            assert_eq!(&b[..], &[0x00, 0xB0, 0x00, 0x00, 0x00, 0x00, 0x55, 0xAA, 0x00]);
        }
        _ => panic!("step 0 must send the command"),
    }
    assert!(matches!(actions[1], HidAction::GetFeatureReport(9)));
    assert!(matches!(actions[2], HidAction::ReadReport(21)));
}

#[test]
fn set_effect_plan_is_a_single_feature_report() {
    let actions = set_effect_actions(CbEffect::RainDrop, CbBrightness::Level7, 0x04, CbColor::Color2);
    assert_eq!(actions.len(), 1);
    match &actions[0] {
        HidAction::SendFeatureReport(b) => {
            assert_eq!(&b[..], &[0x00, 0x08, 0x08, 0x3F, 0x04, 0x00, 0x01, 0xC4, 0x3B]);
        }
        _ => panic!("the only step must send the command"),
    }
}

#[test]
fn matrix_plan_shape() {
    let matrix = [RGB::new(255, 0, 0); 84];
    let actions = set_matrix_actions(&matrix, true);
    assert_eq!(actions.len(), 20);
    let mut feature_reports = 0;
    let mut writes = 0;
    for (k, action) in actions.iter().enumerate() {
        match action {
            HidAction::SendFeatureReport(b) => {
                feature_reports += 1;
                assert_eq!(k % 5, 0);
                assert_eq!(b.len(), 9);
                assert_eq!(b[1], 0x12);
                assert_eq!(b[3], 0x00);
                // Plane order is fixed: 0, 1, 2, 3.
                assert_eq!(b[4], (k / 5) as u8);
            }
            HidAction::WriteReport(b) => {
                writes += 1;
                assert!(k % 5 == 1 || k % 5 == 3);
                assert_eq!(b.len(), 65);
                assert_eq!(b[0], 0);
            }
            HidAction::PauseMillis(m) => {
                assert!(k % 5 == 2 || k % 5 == 4);
                assert_eq!(*m, 5);
            }
            _ => panic!("unexpected step in the upload plan"),
        }
    }
    assert_eq!(feature_reports, 4);
    assert_eq!(writes, 8);
}

#[test]
fn matrix_plan_chunks_carry_the_planes() {
    let matrix = [RGB::new(255, 80, 3); 84];
    let actions = set_matrix_actions(&matrix, false);
    // Plane 0, first chunk: 64 bytes of the mode template.
    match &actions[1] {
        HidAction::WriteReport(b) => {
            for k in 1..65 {
                assert_eq!(b[k], 0x10);
            }
        }
        _ => panic!("step 1 must be a write"),
    }
    // Plane 0, second chunk: 20 more template bytes, then zeros.
    match &actions[3] {
        HidAction::WriteReport(b) => {
            for k in 1..21 {
                assert_eq!(b[k], 0x10);
            }
            for k in 21..65 {
                assert_eq!(b[k], 0x00);
            }
        }
        _ => panic!("step 3 must be a write"),
    }
    // Plane 1, first chunk: the red wire values.
    match &actions[6] {
        HidAction::WriteReport(b) => {
            for k in 1..65 {
                assert_eq!(b[k], 63);
            }
        }
        _ => panic!("step 6 must be a write"),
    }
    // The not-save variant is carried in every plane-select command.
    match &actions[5] {
        HidAction::SendFeatureReport(b) => {
            assert_eq!(b[3], 0xFF);
            assert_eq!(b[4], 0x01);
        }
        _ => panic!("step 5 must select plane 1"),
    }
}

#[test]
fn lighting_interface_filter() {
    assert!(is_lighting_interface(0x04D9, 0xA1CD, 2));
    assert!(!is_lighting_interface(0x04D9, 0xA1CD, 0));
    assert!(!is_lighting_interface(0x04D9, 0xA1CD, 1));
    assert!(!is_lighting_interface(0x04D8, 0xA1CD, 2));
    assert!(!is_lighting_interface(0x04D9, 0xA1CE, 2));
}
