//! Command codec: the fixed-layout byte buffers of every lighting operation,
//! and the decoder for the device's color read-back response.
//!
//! Every feature-report command is 9 bytes:
//! `[report_id = 0x00, command_code, b2, b3, b4, b5, color_or_reserved,
//! framing_hi, framing_lo]`. The framing pair is `(0x55, 0xAA)` for color and
//! matrix commands and `(0xC4, 0x3B)` for the effect-select command.

use vstd::prelude::*;

use crate::color::RGB;
use crate::color::expand_of;
use crate::color::wire_of;
use crate::error::CbError;
use crate::modes::CbBrightness;
use crate::modes::CbColor;
use crate::modes::CbEffect;
use crate::modes::brightness_code;
use crate::modes::color_code;
use crate::modes::effect_code;
use crate::planar::RGBArrayExt;

verus! {

/// The 9-byte command that announces a solid-colors write.
pub open spec fn set_colors_command() -> Seq<u8> {
    seq![0x00, 0x30, 0x00, 0x00, 0x00, 0x00, 0x55, 0xAA, 0x00]
}

/// The 9-byte command that requests the current solid colors.
pub open spec fn get_colors_command() -> Seq<u8> {
    seq![0x00, 0xB0, 0x00, 0x00, 0x00, 0x00, 0x55, 0xAA, 0x00]
}

/// The 9-byte command that selects a built-in effect.
pub open spec fn effect_command(
    effect: CbEffect,
    brightness: CbBrightness,
    speed: u8,
    color: CbColor,
) -> Seq<u8> {
    seq![
        0x00,
        0x08,
        effect_code(effect),
        brightness_code(brightness),
        speed,
        0x00,
        color_code(color),
        0xC4,
        0x3B,
    ]
}

/// The 9-byte command that selects one plane of the picture upload.
pub open spec fn matrix_plane_command(plane_index: u8, save_to_fw: bool) -> Seq<u8> {
    seq![
        0x00,
        0x12,
        0x00,
        (if save_to_fw { 0x00u8 } else { 0xFFu8 }),
        plane_index,
        0x00,
        0x55,
        0xAA,
        0x00,
    ]
}

/// The 64-byte payload of a solid-colors write: byte 0 reserved, then the
/// three wire-form channels of zone `i` at offset `1 + 3*i`, the rest zero.
pub open spec fn colors_payload(colors: Seq<RGB>) -> Seq<u8>
    recommends
        colors.len() == 7,
{
    Seq::new(
        64,
        |i: int|
            if 1 <= i < 22 {
                let zone = (i - 1) / 3;
                let channel = (i - 1) % 3;
                if channel == 0 {
                    wire_of(colors[zone].red)
                } else if channel == 1 {
                    wire_of(colors[zone].green)
                } else {
                    wire_of(colors[zone].blue)
                }
            } else {
                0u8
            },
    )
}

/// The fixed 128-byte template of the "mode" plane (plane 0): 84 bytes of
/// 0x10 followed by 44 bytes of zero. Firmware-required metadata, not derived
/// from the color matrix.
pub open spec fn mode_plane_template() -> Seq<u8> {
    Seq::new(128, |i: int| if i < 84 { 0x10u8 } else { 0x00u8 })
}

/// The 128-byte payload of plane `plane_index`: plane 0 is the fixed mode
/// template; planes 1, 2, 3 carry the red, green, blue wire-form values of
/// the 84 matrix positions in the low 84 bytes, the rest zero.
pub open spec fn plane_payload(plane_index: u8, colors: Seq<RGB>) -> Seq<u8>
    recommends
        plane_index < 4,
        colors.len() == 84,
{
    if plane_index == 0 {
        mode_plane_template()
    } else {
        Seq::new(
            128,
            |i: int|
                if i < 84 {
                    if plane_index == 1 {
                        wire_of(colors[i].red)
                    } else if plane_index == 2 {
                        wire_of(colors[i].green)
                    } else {
                        wire_of(colors[i].blue)
                    }
                } else {
                    0u8
                },
        )
    }
}

/// The mode plane is a constant: its payload does not depend on the matrix.
pub proof fn lemma_mode_plane_constant(colors1: Seq<RGB>, colors2: Seq<RGB>)
    ensures
        plane_payload(0, colors1) == plane_payload(0, colors2),
        plane_payload(0, colors1) == mode_plane_template(),
{
}

/// Builds the command and payload of a solid-colors write.
pub fn encode_set_colors(colors: &[RGB; 7]) -> (r: ([u8; 9], [u8; 64]))
    ensures
        r.0@ == set_colors_command(),
        r.1@ == colors_payload(colors@),
{
    let command: [u8; 9] = [0x00, 0x30, 0x00, 0x00, 0x00, 0x00, 0x55, 0xAA, 0x00];
    proof {
        assert(command@ =~= set_colors_command());
    }
    let mut buf: [u8; 64] = [0; 64];
    let mut i: usize = 0;
    while i < 7
        invariant
            i <= 7,
            forall|j: int| 0 <= j < 1 + 3 * i ==> buf@[j] == colors_payload(colors@)[j],
            forall|j: int| 1 + 3 * i <= j < 64 ==> buf@[j] == 0,
        decreases 7 - i,
    {
        let rgb_bytes = colors[i].to_6bit_bytes();
        let offset = i * 3;
        buf[1 + offset] = rgb_bytes[0];
        buf[1 + offset + 1] = rgb_bytes[1];
        buf[1 + offset + 2] = rgb_bytes[2];
        i += 1;
    }
    proof {
        assert(buf@ =~= colors_payload(colors@));
    }
    (command, buf)
}

/// Builds the command that requests the current solid colors.
pub fn encode_get_colors() -> (r: [u8; 9])
    ensures
        r@ == get_colors_command(),
{
    let command: [u8; 9] = [0x00, 0xB0, 0x00, 0x00, 0x00, 0x00, 0x55, 0xAA, 0x00];
    proof {
        assert(command@ =~= get_colors_command());
    }
    command
}

/// Builds the effect-select command. `speed` is a raw firmware byte, passed
/// through unvalidated.
pub fn encode_set_effect(
    effect: CbEffect,
    brightness: CbBrightness,
    speed: u8,
    color: CbColor,
) -> (r: [u8; 9])
    ensures
        r@ == effect_command(effect, brightness, speed, color),
{
    let command: [u8; 9] = [
        0x00,
        0x08,
        effect.code(),
        brightness.code(),
        speed,
        0x00,
        color.code(),
        0xC4,
        0x3B,
    ];
    proof {
        assert(command@ =~= effect_command(effect, brightness, speed, color));
    }
    command
}

/// Builds the plane-select command of the picture upload.
pub fn encode_set_matrix_plane(plane_index: u8, save_to_fw: bool) -> (r: [u8; 9])
    requires
        plane_index < 4,
    ensures
        r@ == matrix_plane_command(plane_index, save_to_fw),
{
    let save_byte: u8 = if save_to_fw {
        0x00
    } else {
        0xFF
    };
    let command: [u8; 9] = [0x00, 0x12, 0x00, save_byte, plane_index, 0x00, 0x55, 0xAA, 0x00];
    proof {
        assert(command@ =~= matrix_plane_command(plane_index, save_to_fw));
    }
    command
}

/// Builds the 128-byte payload of one plane of the picture upload.
pub fn build_plane_payload(plane_index: u8, matrix: &[RGB; 84]) -> (r: [u8; 128])
    requires
        plane_index < 4,
    ensures
        r@ == plane_payload(plane_index, matrix@),
{
    let mut buf: [u8; 128] = [0; 128];
    if plane_index == 0 {
        let mut i: usize = 0;
        while i < 84
            invariant
                i <= 84,
                forall|j: int| 0 <= j < i ==> buf@[j] == 0x10u8,
                forall|j: int| i <= j < 128 ==> buf@[j] == 0,
            decreases 84 - i,
        {
            buf[i] = 0x10;
            i += 1;
        }
        proof {
            assert(buf@ =~= mode_plane_template());
        }
    } else {
        let (red, green, blue) = matrix.to_planer_format();
        let plane: [u8; 84] = if plane_index == 1 {
            red
        } else if plane_index == 2 {
            green
        } else {
            blue
        };
        let mut i: usize = 0;
        while i < 84
            invariant
                i <= 84,
                1 <= plane_index < 4,
                forall|j: int| 0 <= j < i ==> buf@[j] == plane_payload(plane_index, matrix@)[j],
                forall|j: int| i <= j < 128 ==> buf@[j] == 0,
                forall|j: int| 0 <= j < 84 ==> plane@[j] == plane_payload(plane_index, matrix@)[j],
            decreases 84 - i,
        {
            buf[i] = plane[i];
            i += 1;
        }
        proof {
            assert(buf@ =~= plane_payload(plane_index, matrix@));
        }
    }
    buf
}

/// Decodes the 21-byte color read-back: seven zones of three consecutive
/// wire-form bytes each, every zone expanded back to an 8-bit color. Fails
/// with a protocol error exactly when the response is shorter than 21 bytes.
pub fn decode_get_colors_response(raw: &[u8]) -> (r: Result<[RGB; 7], CbError>)
    ensures
        r is Ok <==> raw@.len() >= 21,
        r matches Ok(g) ==> forall|i: int|
            0 <= i < 7 ==> g@[i] == (RGB {
                red: expand_of(raw@[3 * i]),
                green: expand_of(raw@[3 * i + 1]),
                blue: expand_of(raw@[3 * i + 2]),
            }),
        r matches Err(e) ==> e is ProtocolError,
{
    if raw.len() < 21 {
        return Err(
            CbError::ProtocolError("color read-back shorter than the 21 required bytes".to_owned()),
        );
    }
    let black = RGB::new(0, 0, 0);
    let mut data: [RGB; 7] = [black; 7];
    let mut i: usize = 0;
    while i < 7
        invariant
            i <= 7,
            raw@.len() >= 21,
            forall|j: int| 0 <= j < i ==> data@[j] == (RGB {
                red: expand_of(raw@[3 * j]),
                green: expand_of(raw@[3 * j + 1]),
                blue: expand_of(raw@[3 * j + 2]),
            }),
        decreases 7 - i,
    {
        let group = i * 3;
        data[i] = RGB::from_6bit_rgb(raw[group], raw[group + 1], raw[group + 2]);
        i += 1;
    }
    Ok(data)
}

} // verus!
