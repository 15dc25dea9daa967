//! Device session protocol: the exact sequence of HID transport steps each
//! lighting operation performs, and the identity of the lighting interface.
//!
//! The session owns no transport itself: each operation is described as an
//! ordered plan of [`HidAction`] steps, and the caller that holds the open
//! HID handle performs them in order, aborting on the first transport
//! failure. The plans are where the protocol's sequencing rules live: the
//! mandatory handshake read after a command, the 5 ms pacing pauses, and the
//! four-plane order and two-chunk shape of the picture upload.

use vstd::prelude::*;
use vstd::slice::slice_to_vec;

use crate::codec::build_plane_payload;
use crate::codec::colors_payload;
use crate::codec::effect_command;
use crate::codec::encode_get_colors;
use crate::codec::encode_set_colors;
use crate::codec::encode_set_effect;
use crate::codec::encode_set_matrix_plane;
use crate::codec::get_colors_command;
use crate::codec::matrix_plane_command;
use crate::codec::plane_payload;
use crate::codec::set_colors_command;
use crate::color::RGB;
use crate::modes::CbBrightness;
use crate::modes::CbColor;
use crate::modes::CbEffect;

verus! {

/// Vendor ID of the keyboard.
pub const VENDOR_ID: u16 = 0x04D9;

/// Product ID of the keyboard.
pub const PRODUCT_ID: u16 = 0xA1CD;

/// The HID interface number of the lighting-control sub-interface.
pub const LIGHTING_INTERFACE: i32 = 2;

/// Length of a feature-report command and of the handshake read-back.
pub const COMMAND_LEN: usize = 9;

/// Length of the color read-back response: seven zones of three bytes.
pub const READBACK_LEN: usize = 21;

/// The fixed pause after a payload write, in milliseconds, required for the
/// firmware to latch the written state.
pub const PACING_MILLIS: u64 = 5;

/// Whether a device descriptor identifies the lighting-control endpoint:
/// the keyboard's vendor and product IDs on HID interface 2.
pub fn is_lighting_interface(vendor_id: u16, product_id: u16, interface_number: i32) -> (r: bool)
    ensures
        r == (vendor_id == VENDOR_ID && product_id == PRODUCT_ID && interface_number
            == LIGHTING_INTERFACE),
{
    vendor_id == VENDOR_ID && product_id == PRODUCT_ID && interface_number == LIGHTING_INTERFACE
}

/// One step of an operation's transport plan, to be performed in order by
/// the holder of the open HID handle.
pub enum HidAction {
    /// Send these bytes as a feature report.
    SendFeatureReport(Vec<u8>),
    /// Read a feature report of this length and discard it (the firmware's
    /// required acknowledgement handshake).
    GetFeatureReport(usize),
    /// Write these bytes as an output report.
    WriteReport(Vec<u8>),
    /// Perform a blocking read of up to this many bytes from the input
    /// report stream and hand the result back for decoding.
    ReadReport(usize),
    /// Pause for this many milliseconds before the next step.
    PauseMillis(u64),
}

/// The step sends exactly these bytes as a feature report.
pub open spec fn is_feature_send(a: HidAction, bytes: Seq<u8>) -> bool {
    a matches HidAction::SendFeatureReport(b) && b@ == bytes
}

/// The step is the discard-read of a feature report of this length.
pub open spec fn is_feature_read(a: HidAction, len: int) -> bool {
    a matches HidAction::GetFeatureReport(l) && l as int == len
}

/// The step writes exactly these bytes as an output report.
pub open spec fn is_write(a: HidAction, bytes: Seq<u8>) -> bool {
    a matches HidAction::WriteReport(b) && b@ == bytes
}

/// The step is a blocking input read of up to this many bytes.
pub open spec fn is_read(a: HidAction, len: int) -> bool {
    a matches HidAction::ReadReport(l) && l as int == len
}

/// The step is a pause of this many milliseconds.
pub open spec fn is_pause(a: HidAction, millis: u64) -> bool {
    a matches HidAction::PauseMillis(m) && m == millis
}

/// The transport plan of a solid-colors write: the command, the handshake
/// read, the 64-byte payload, and the latching pause.
pub fn set_colors_actions(colors: &[RGB; 7]) -> (r: Vec<HidAction>)
    ensures
        r@.len() == 4,
        is_feature_send(r@[0], set_colors_command()),
        is_feature_read(r@[1], COMMAND_LEN as int),
        is_write(r@[2], colors_payload(colors@)),
        is_pause(r@[3], PACING_MILLIS),
{
    let (command, payload) = encode_set_colors(colors);
    let mut actions: Vec<HidAction> = Vec::new();
    actions.push(HidAction::SendFeatureReport(slice_to_vec(command.as_slice())));
    actions.push(HidAction::GetFeatureReport(COMMAND_LEN));
    actions.push(HidAction::WriteReport(slice_to_vec(payload.as_slice())));
    actions.push(HidAction::PauseMillis(PACING_MILLIS));
    actions
}

/// The transport plan of a colors read-back: the command, the handshake
/// read, and the blocking 21-byte input read whose result is decoded by
/// [`crate::codec::decode_get_colors_response`].
pub fn get_colors_actions() -> (r: Vec<HidAction>)
    ensures
        r@.len() == 3,
        is_feature_send(r@[0], get_colors_command()),
        is_feature_read(r@[1], COMMAND_LEN as int),
        is_read(r@[2], READBACK_LEN as int),
{
    let command = encode_get_colors();
    let mut actions: Vec<HidAction> = Vec::new();
    actions.push(HidAction::SendFeatureReport(slice_to_vec(command.as_slice())));
    actions.push(HidAction::GetFeatureReport(COMMAND_LEN));
    actions.push(HidAction::ReadReport(READBACK_LEN));
    actions
}

/// The transport plan of an effect selection: a single feature report, no
/// payload, no read-back.
pub fn set_effect_actions(
    effect: CbEffect,
    brightness: CbBrightness,
    speed: u8,
    color: CbColor,
) -> (r: Vec<HidAction>)
    ensures
        r@.len() == 1,
        is_feature_send(r@[0], effect_command(effect, brightness, speed, color)),
{
    let command = encode_set_effect(effect, brightness, speed, color);
    let mut actions: Vec<HidAction> = Vec::new();
    actions.push(HidAction::SendFeatureReport(slice_to_vec(command.as_slice())));
    actions
}

/// The five steps the picture upload performs for plane `p`: the
/// plane-select feature report, then the plane's 128-byte payload split into
/// two 64-byte chunks, each prefixed with a zero byte to form a 65-byte
/// output-report write and each followed by the pacing pause.
pub open spec fn is_plane_steps(
    actions: Seq<HidAction>,
    colors: Seq<RGB>,
    save_to_fw: bool,
    p: int,
) -> bool
    recommends
        0 <= p < 4,
        actions.len() >= 5 * p + 5,
{
    &&& is_feature_send(actions[5 * p], matrix_plane_command(p as u8, save_to_fw))
    &&& is_write(actions[5 * p + 1], seq![0u8] + plane_payload(p as u8, colors).subrange(0, 64))
    &&& is_pause(actions[5 * p + 2], PACING_MILLIS)
    &&& is_write(actions[5 * p + 3], seq![0u8] + plane_payload(p as u8, colors).subrange(64, 128))
    &&& is_pause(actions[5 * p + 4], PACING_MILLIS)
}

/// The complete transport plan of a picture upload: for each plane 0, 1, 2,
/// 3 in order, the five steps of [`is_plane_steps`].
pub open spec fn is_matrix_upload_plan(
    actions: Seq<HidAction>,
    colors: Seq<RGB>,
    save_to_fw: bool,
) -> bool {
    &&& actions.len() == 20
    &&& forall|p: int| 0 <= p < 4 ==> #[trigger] is_plane_steps(actions, colors, save_to_fw, p)
}

/// The transport plan of a picture upload of the 84-color matrix.
pub fn set_matrix_actions(matrix: &[RGB; 84], save_to_fw: bool) -> (r: Vec<HidAction>)
    ensures
        is_matrix_upload_plan(r@, matrix@, save_to_fw),
{
    let mut actions: Vec<HidAction> = Vec::new();
    let mut plane_index: u8 = 0;
    while plane_index < 4
        invariant
            plane_index <= 4,
            actions@.len() == 5 * plane_index,
            forall|p: int| 0 <= p < plane_index ==> #[trigger] is_plane_steps(
                actions@,
                matrix@,
                save_to_fw,
                p,
            ),
        decreases 4 - plane_index,
    {
        let ghost prev: Seq<HidAction> = actions@;
        let ghost p0: int = plane_index as int;
        let command = encode_set_matrix_plane(plane_index, save_to_fw);
        let payload = build_plane_payload(plane_index, matrix);
        let command_vec = slice_to_vec(command.as_slice());
        let chunk0 = chunk_write_buf(&payload, 0);
        let chunk1 = chunk_write_buf(&payload, 64);
        let ghost step0 = HidAction::SendFeatureReport(command_vec);
        let ghost step1 = HidAction::WriteReport(chunk0);
        let ghost step3 = HidAction::WriteReport(chunk1);
        let ghost pause = HidAction::PauseMillis(PACING_MILLIS);
        actions.push(HidAction::SendFeatureReport(command_vec));
        actions.push(HidAction::WriteReport(chunk0));
        actions.push(HidAction::PauseMillis(PACING_MILLIS));
        actions.push(HidAction::WriteReport(chunk1));
        actions.push(HidAction::PauseMillis(PACING_MILLIS));
        plane_index += 1;
        proof {
            assert(actions@ =~= (prev + seq![step0, step1, pause, step3, pause]));
            assert forall|p: int| 0 <= p < plane_index implies #[trigger] is_plane_steps(
                actions@,
                matrix@,
                save_to_fw,
                p,
            ) by {
                if p < p0 {
                    assert(is_plane_steps(prev, matrix@, save_to_fw, p));
                    assert(actions@[5 * p] == prev[5 * p]);
                    assert(actions@[5 * p + 1] == prev[5 * p + 1]);
                    assert(actions@[5 * p + 2] == prev[5 * p + 2]);
                    assert(actions@[5 * p + 3] == prev[5 * p + 3]);
                    assert(actions@[5 * p + 4] == prev[5 * p + 4]);
                } else {
                    assert(actions@[5 * p] == step0);
                    assert(actions@[5 * p + 1] == step1);
                    assert(actions@[5 * p + 2] == pause);
                    assert(actions@[5 * p + 3] == step3);
                    assert(actions@[5 * p + 4] == pause);
                }
            }
        }
    }
    actions
}

/// Law: a picture upload issues exactly four plane-select feature reports
/// and exactly eight output-report writes, two per plane, in the fixed
/// plane order 0, 1, 2, 3. Of the twenty steps, exactly those at positions
/// divisible by five are feature reports (step 5p selecting plane p), and
/// exactly those at positions 5p+1 and 5p+3 are output-report writes; every
/// write is exactly 65 bytes long and its first byte is always zero.
pub proof fn lemma_matrix_upload_shape(actions: Seq<HidAction>, colors: Seq<RGB>, save_to_fw: bool)
    requires
        is_matrix_upload_plan(actions, colors, save_to_fw),
    ensures
        actions.len() == 20,
        forall|k: int|
            0 <= k < 20 ==> ((#[trigger] actions[k]) is SendFeatureReport <==> k % 5 == 0),
        forall|k: int|
            0 <= k < 20 ==> ((#[trigger] actions[k]) is WriteReport <==> (k % 5 == 1 || k % 5
                == 3)),
        forall|k: int|
            0 <= k < 20 && k % 5 == 0 ==> is_feature_send(
                #[trigger] actions[k],
                matrix_plane_command((k / 5) as u8, save_to_fw),
            ),
        forall|k: int|
            0 <= k < 20 && (k % 5 == 1 || k % 5 == 3) ==> ((#[trigger] actions[k]) matches
            HidAction::WriteReport(b) && b@.len() == 65 && b@[0] == 0),
{
    assert forall|k: int| 0 <= k < 20 implies {
        &&& (actions[k] is SendFeatureReport <==> k % 5 == 0)
        &&& (actions[k] is WriteReport <==> (k % 5 == 1 || k % 5 == 3))
        &&& (k % 5 == 0 ==> is_feature_send(
            actions[k],
            matrix_plane_command((k / 5) as u8, save_to_fw),
        ))
        &&& (k % 5 == 1 || k % 5 == 3 ==> (actions[k] matches HidAction::WriteReport(b) && b@.len()
            == 65 && b@[0] == 0))
    } by {
        let p = k / 5;
        let r = k % 5;
        assert(0 <= p < 4);
        assert(k == 5 * p + r);
        assert(is_plane_steps(actions, colors, save_to_fw, p));
        assert(plane_payload((k / 5) as u8, colors).subrange(0, 64).len() == 64);
        assert(plane_payload((k / 5) as u8, colors).subrange(64, 128).len() == 64);
    }
}

/// The number of feature-report sends among the first `n` steps of a plan.
pub open spec fn feature_sends_in(actions: Seq<HidAction>, n: int) -> int
    recommends
        0 <= n <= actions.len(),
    decreases n,
{
    if n <= 0 {
        0
    } else {
        feature_sends_in(actions, n - 1) + if actions[n - 1] is SendFeatureReport {
            1int
        } else {
            0int
        }
    }
}

/// The number of output-report writes among the first `n` steps of a plan.
pub open spec fn writes_in(actions: Seq<HidAction>, n: int) -> int
    recommends
        0 <= n <= actions.len(),
    decreases n,
{
    if n <= 0 {
        0
    } else {
        writes_in(actions, n - 1) + if actions[n - 1] is WriteReport {
            1int
        } else {
            0int
        }
    }
}

/// Law: counted over all twenty steps, a picture upload issues exactly four
/// feature-report sends and exactly eight output-report writes.
pub proof fn lemma_matrix_upload_counts(actions: Seq<HidAction>, colors: Seq<RGB>, save_to_fw: bool)
    requires
        is_matrix_upload_plan(actions, colors, save_to_fw),
    ensures
        feature_sends_in(actions, 20) == 4,
        writes_in(actions, 20) == 8,
{
    lemma_counts_by_plane(actions, colors, save_to_fw, 4);
}

/// After the five steps of each of the first `p` planes, `p` feature
/// reports and `2p` writes have been issued.
proof fn lemma_counts_by_plane(actions: Seq<HidAction>, colors: Seq<RGB>, save_to_fw: bool, p: int)
    requires
        is_matrix_upload_plan(actions, colors, save_to_fw),
        0 <= p <= 4,
    ensures
        feature_sends_in(actions, 5 * p) == p,
        writes_in(actions, 5 * p) == 2 * p,
    decreases p,
{
    if p > 0 {
        lemma_counts_by_plane(actions, colors, save_to_fw, p - 1);
        let base = 5 * (p - 1);
        assert(is_plane_steps(actions, colors, save_to_fw, p - 1));
        assert(actions[base] is SendFeatureReport);
        assert(actions[base + 1] is WriteReport);
        assert(actions[base + 2] is PauseMillis);
        assert(actions[base + 3] is WriteReport);
        assert(actions[base + 4] is PauseMillis);
        assert(feature_sends_in(actions, base + 1) == p);
        assert(feature_sends_in(actions, base + 2) == p);
        assert(feature_sends_in(actions, base + 3) == p);
        assert(feature_sends_in(actions, base + 4) == p);
        assert(feature_sends_in(actions, base + 5) == p);
        assert(writes_in(actions, base + 1) == 2 * p - 2);
        assert(writes_in(actions, base + 2) == 2 * p - 1);
        assert(writes_in(actions, base + 3) == 2 * p - 1);
        assert(writes_in(actions, base + 4) == 2 * p);
        assert(writes_in(actions, base + 5) == 2 * p);
    }
}

/// One 65-byte output-report chunk: a single zero prefix byte followed by 64
/// consecutive payload bytes starting at `chunk_start`.
fn chunk_write_buf(payload: &[u8; 128], chunk_start: usize) -> (r: Vec<u8>)
    requires
        chunk_start + 64 <= 128,
    ensures
        r@ == seq![0u8] + payload@.subrange(chunk_start as int, chunk_start as int + 64),
{
    let mut buf: Vec<u8> = Vec::new();
    buf.push(0);
    let mut i: usize = 0;
    while i < 64
        invariant
            i <= 64,
            chunk_start + 64 <= 128,
            buf@.len() == 1 + i,
            buf@[0] == 0,
            forall|j: int| 0 <= j < i ==> #[trigger] buf@[1 + j] == payload@[chunk_start + j],
        decreases 64 - i,
    {
        buf.push(payload[chunk_start + i]);
        i += 1;
    }
    proof {
        let expected = seq![0u8] + payload@.subrange(chunk_start as int, chunk_start as int + 64);
        assert forall|k: int| 0 <= k < 65 implies buf@[k] == expected[k] by {
            if k >= 1 {
                assert(buf@[1 + (k - 1)] == payload@[chunk_start + (k - 1)]);
            }
        }
        assert(buf@ =~= expected);
    }
    buf
}

} // verus!
