use openh264::encoder::FrameRate;
use rd_agent::control::ResolutionPreset;
use rd_agent::platform::Platform;
use rd_agent::time::Duration;
use rd_agent::video::capture::{
    frame_gap, gap_micros, start_outcome, CaptureError, CaptureSetup,
};
use rd_agent::video::convert::{bgra_to_i420, can_resize, resize_bgra, resize_bgra_frame};
use rd_agent::video::openh264_encoder::Openh264Encoder;
use rd_agent::video::sck_capturer::SckCapturer;
use rd_agent::video::testpattern::TestPatternSource;
use rd_agent::video::xcap_capturer::{pick_monitor, swap_red_and_blue, XcapCapturer};
use rd_agent::video::{
    even, fit_aspect, make_source, prefers_hardware, preset_capture_size, preset_size,
    target_capture_size, Frame, Source, VideoEncoder, VideoError, I420,
};

#[test]
fn preserves_16_10_display_within_720p_box() {
    // 16:10 display (e.g. 2560x1664): no 16:9 letterbox; height-limited.
    let (w, h) = fit_aspect(2560, 1664, 1280, 720);
    assert_eq!(h, 720);
    assert_eq!(w, 1108); // 720 * 2560/1664 = 1107.7, rounds to 1108, even
    assert!(w % 2 == 0 && h % 2 == 0);
}

#[test]
fn exact_16_9_display_fills_the_box() {
    assert_eq!(fit_aspect(1920, 1080, 1280, 720), (1280, 720));
}

#[test]
fn taller_display_is_width_limited() {
    // A 16:10 portrait-ish case fits by width.
    let (w, h) = fit_aspect(1000, 2000, 1280, 720);
    assert_eq!(w, 360); // 720/2 aspect: 720*1000/2000=360
    assert_eq!(h, 720);
}

#[test]
fn zero_display_falls_back_to_box() {
    assert_eq!(fit_aspect(0, 0, 1280, 720), (1280, 720));
}

#[test]
fn dimensions_are_always_even() {
    let (w, h) = fit_aspect(1471, 957, 1280, 720); // odd inputs
    assert_eq!(w % 2, 0);
    assert_eq!(h % 2, 0);
}

#[test]
fn sd_fits_720p_box() {
    // 1512x982 logical display: aspect-fit inside 1280x720, even dims.
    assert_eq!(preset_size(ResolutionPreset::Sd, 1512, 982), (1108, 720));
}

#[test]
fn hd_is_display_logical_size_evened() {
    assert_eq!(preset_size(ResolutionPreset::Hd, 1512, 982), (1512, 982));
    assert_eq!(preset_size(ResolutionPreset::Hd, 1513, 983), (1512, 982));
}

#[test]
fn native_is_double_logical_evened() {
    assert_eq!(preset_size(ResolutionPreset::Native, 1512, 982), (3024, 1964));
}

fn float_fit(disp_w: u32, disp_h: u32, max_w: u32, max_h: u32) -> (u32, u32) {
    let scale = f64::min(max_w as f64 / disp_w as f64, max_h as f64 / disp_h as f64);
    let side = |n: u32| (((n as f64 * scale).round() as u32) & !1).max(2);
    (side(disp_w), side(disp_h))
}

#[test]
fn sizes_agree_with_the_hardware_arithmetic() {
    // a width on the edge between two pixels
    assert_eq!(fit_aspect(637, 1248, 1280, 720), (366, 720));
    for w in (1..4000).step_by(37) {
        for h in (1..4000).step_by(41) {
            assert_eq!(fit_aspect(w, h, 1280, 720), float_fit(w, h, 1280, 720), "{w}x{h}");
            assert_eq!(fit_aspect(w, h, 333, 777), float_fit(w, h, 333, 777), "{w}x{h}");
        }
    }
    for (w, h) in [(u32::MAX, 1), (1, u32::MAX), (u32::MAX, u32::MAX), (1, 1), (3, 7)] {
        for (mw, mh) in [(u32::MAX, u32::MAX), (0, 5), (5, 0), (1, 1), (2, 2), (720, u32::MAX)] {
            assert_eq!(fit_aspect(w, h, mw, mh), float_fit(w, h, mw, mh), "{w}x{h} {mw}x{mh}");
        }
    }
}

#[test]
fn unknown_displays_fall_back() {
    assert_eq!(preset_capture_size(ResolutionPreset::Native, None), (1280, 720));
    assert_eq!(preset_capture_size(ResolutionPreset::Hd, Some((801, 600))), (800, 600));
    assert_eq!(target_capture_size(1281, 721, None), (1280, 720));
    assert_eq!(target_capture_size(1, 0, None), (2, 2));
    assert_eq!(target_capture_size(1280, 720, Some((1920, 1080))), (1280, 720));
    assert_eq!(even(7), 6);
    assert_eq!(even(8), 8);
}

fn solid_bgra(w: usize, h: usize, b: u8, g: u8, r: u8) -> Frame {
    let stride = w * 4;
    let mut data = vec![0u8; stride * h];
    for px in data.chunks_exact_mut(4) {
        px[0] = b;
        px[1] = g;
        px[2] = r;
        px[3] = 255;
    }
    Frame { width: w as u32, height: h as u32, stride, data, ts_micros: 0 }
}

#[test]
fn i420_dimensions_and_plane_sizes() {
    let f = solid_bgra(16, 16, 0, 0, 0);
    let i = bgra_to_i420(&f, 16, 16);
    assert_eq!((i.width, i.height), (16, 16));
    assert_eq!(i.y.len(), i.y_stride * 16);
    assert_eq!(i.u.len(), i.uv_stride * 8);
    assert_eq!(i.v.len(), i.uv_stride * 8);
}

#[test]
fn black_and_white_luma_ordering() {
    let black = bgra_to_i420(&solid_bgra(16, 16, 0, 0, 0), 16, 16);
    let white = bgra_to_i420(&solid_bgra(16, 16, 255, 255, 255), 16, 16);
    // white luma must be much brighter than black luma
    assert!(black.y[0] < 40, "black luma {} too high", black.y[0]);
    assert!(white.y[0] > 200, "white luma {} too low", white.y[0]);
}

#[test]
fn resizes_to_target() {
    let i = bgra_to_i420(&solid_bgra(32, 32, 0, 0, 0), 16, 16);
    assert_eq!((i.width, i.height), (16, 16));
}

#[test]
fn zero_target_returns_empty_without_panic() {
    let i = bgra_to_i420(&solid_bgra(16, 16, 0, 0, 0), 0, 0);
    assert_eq!((i.width, i.height), (0, 0));
    assert!(i.y.is_empty() && i.u.is_empty() && i.v.is_empty());
}

#[test]
fn handles_padded_source_stride() {
    // Source with row padding: stride > width*4. Fill visible pixels white,
    // padding black; converting must read via stride and yield high luma.
    let (w, h) = (16usize, 16usize);
    let stride = w * 4 + 32; // padded
    let mut data = vec![0u8; stride * h];
    for y in 0..h {
        for x in 0..w {
            let i = y * stride + x * 4;
            data[i] = 255;
            data[i + 1] = 255;
            data[i + 2] = 255;
            data[i + 3] = 255;
        }
    }
    let frame = Frame { width: w as u32, height: h as u32, stride, data, ts_micros: 0 };
    let out = bgra_to_i420(&frame, w, h);
    assert!(out.y[0] > 200, "white luma {} too low: stride mishandled", out.y[0]);
}

#[test]
fn odd_sizes_round_their_chroma_up() {
    let i = bgra_to_i420(&solid_bgra(5, 3, 10, 20, 30), 5, 3);
    assert_eq!((i.y_stride, i.uv_stride), (5, 3));
    assert_eq!((i.y.len(), i.u.len(), i.v.len()), (15, 6, 6));
}

#[test]
fn an_odd_last_row_is_read_from_what_is_left() {
    // the rest of a row behind the pixels is not looked at
    let mut frame = solid_bgra(1, 3, 255, 255, 255);
    frame.data.extend_from_slice(&[0, 0, 0]);
    let i = bgra_to_i420(&frame, 1, 3);
    assert_eq!((i.y.len(), i.u.len(), i.v.len()), (3, 2, 2));
    assert!(i.y[0] > 200 && i.y[2] > 200);
    // two whole rows more take the place of the last one
    let mut frame = solid_bgra(1, 1, 255, 255, 255);
    frame.data.extend_from_slice(&[255, 255, 255, 255, 0, 0, 0, 0]);
    assert!(bgra_to_i420(&frame, 1, 1).y[0] < 40);
}

#[test]
fn resizing_takes_the_nearest_pixel() {
    // 2x2 with one byte of padding per row
    let data = vec![1, 2, 3, 4, 5, 6, 7, 8, 0, 9, 10, 11, 12, 13, 14, 15, 16, 0];
    let frame = Frame { width: 2, height: 2, stride: 9, data, ts_micros: 7 };
    assert_eq!(
        resize_bgra(&frame, 2, 2),
        vec![1, 2, 3, 4, 5, 6, 7, 8, 9, 10, 11, 12, 13, 14, 15, 16]
    );
    assert_eq!(resize_bgra(&frame, 1, 1), vec![1, 2, 3, 4]);
    assert_eq!(
        resize_bgra(&frame, 3, 1),
        vec![1, 2, 3, 4, 1, 2, 3, 4, 5, 6, 7, 8]
    );
    let sized = resize_bgra_frame(&frame, 1, 2);
    assert_eq!(
        sized,
        Frame {
            width: 1,
            height: 2,
            stride: 4,
            data: vec![1, 2, 3, 4, 9, 10, 11, 12],
            ts_micros: 7
        }
    );
    // a frame that fits already is taken as it is, trailing bytes and all
    let exact = Frame { width: 1, height: 1, stride: 4, data: vec![1, 2, 3, 4, 5], ts_micros: 0 };
    assert_eq!(resize_bgra(&exact, 1, 1), vec![1, 2, 3, 4, 5]);
    assert!(resize_bgra(&frame, 0, 5).is_empty());
}

#[test]
fn frames_know_whether_they_can_be_resized() {
    let frame = solid_bgra(4, 4, 1, 2, 3);
    assert!(can_resize(&frame, 2, 2));
    assert!(can_resize(&frame, 4, 4));
    let short = Frame { data: vec![0; 8], ..solid_bgra(4, 4, 1, 2, 3) };
    assert!(!can_resize(&short, 2, 2));
    // at its own size a frame is only copied
    assert!(can_resize(&short, 4, 4));
    assert_eq!(resize_bgra(&short, 4, 4), vec![0; 8]);
}

#[test]
fn frames_know_whether_they_can_be_encoded() {
    let good = solid_bgra(4, 2, 0, 0, 0);
    assert!(good.is_well_formed() && good.is_encodable());
    let odd = solid_bgra(3, 2, 0, 0, 0);
    assert!(odd.is_well_formed() && !odd.is_encodable());
    let short = Frame { width: 4, height: 2, stride: 16, data: vec![0; 31], ts_micros: 0 };
    assert!(!short.is_well_formed());
    let narrow = Frame { width: 4, height: 2, stride: 15, data: vec![0; 64], ts_micros: 0 };
    assert!(!narrow.is_well_formed());
    let empty = Frame { width: 0, height: 2, stride: 16, data: vec![0; 64], ts_micros: 0 };
    assert!(!empty.is_well_formed());
    // the last row needs no padding
    let tight = Frame { width: 2, height: 2, stride: 20, data: vec![0; 28], ts_micros: 0 };
    assert!(tight.is_encodable());
}

#[test]
fn testpattern_emits_frames_of_expected_size_that_change() {
    let src = TestPatternSource { width: 64, height: 48, fps: 30 };
    let f0 = src.frame(0);
    let f1 = src.frame(1);
    assert_eq!(f0.width, 64);
    assert_eq!(f0.height, 48);
    assert_eq!(f0.stride, 64 * 4);
    assert_eq!(f0.data.len(), 64 * 48 * 4);
    // successive frames differ (animation)
    assert_ne!(f0.data, f1.data);
    // timestamps are monotonic
    assert!(f1.ts_micros > f0.ts_micros);
}

#[test]
fn testpattern_pixels() {
    let src = TestPatternSource { width: 20, height: 12, fps: 25 };
    let n = 5u64;
    let f = src.frame(n);
    assert_eq!(f.ts_micros, 5 * 40_000);
    // the square stands at (10 % 12, 5 % 4)
    for y in 0..12u32 {
        for x in 0..20u32 {
            let i = ((y * 20 + x) * 4) as usize;
            let want = if (10..18).contains(&x) && (1..9).contains(&y) {
                [255, 255, 255, 255]
            } else {
                [(x + 20) as u8, (y + 20) as u8, (x + y + 20) as u8, 255]
            };
            assert_eq!(f.data[i..i + 4], want, "{x},{y}");
        }
    }
    assert_eq!(TestPatternSource { width: 1, height: 1, fps: 0 }.frame(3).ts_micros, 3_000_000);
    assert_eq!(src.frame_gap(), Duration::from_millis(40));
    assert!(TestPatternSource { width: 0, height: 9, fps: 1 }.frame(0).data.is_empty());
}

#[test]
fn sources_are_selected_by_wish_and_platform() {
    let test = Source::TestPattern(TestPatternSource { width: 64, height: 48, fps: 30 });
    for platform in [Platform::MacOs, Platform::Windows, Platform::Other] {
        assert_eq!(make_source(Some("testpattern"), platform, 64, 48, 30), test);
    }
    assert_eq!(make_source(None, Platform::Other, 64, 48, 30), test);
    assert_eq!(
        make_source(Some("screen"), Platform::MacOs, 64, 48, 30),
        Source::ScreenCaptureKit(SckCapturer { width: 64, height: 48, fps: 30 })
    );
    assert_eq!(
        make_source(None, Platform::Windows, 64, 48, 30),
        Source::Xcap(XcapCapturer::new(30))
    );
    assert_eq!(SckCapturer::new(30), SckCapturer { width: 1280, height: 720, fps: 30 });
    assert!(prefers_hardware(None, Platform::MacOs));
    assert!(prefers_hardware(Some("auto"), Platform::MacOs));
    assert!(!prefers_hardware(Some("openh264"), Platform::MacOs));
    assert!(!prefers_hardware(None, Platform::Windows));
}

#[test]
fn captured_bytes_become_frames() {
    let f = rd_agent::video::sck_capturer::frame_of(2, 2, vec![0; 40], 9);
    assert_eq!((f.stride, f.ts_micros, f.data.len()), (20, 9, 40));
    assert!(f.is_well_formed());
    assert_eq!(rd_agent::video::sck_capturer::frame_of(2, 0, vec![0; 8], 0).stride, 8);
    let f = rd_agent::video::xcap_capturer::frame_of(1, 2, vec![1, 2, 3, 4, 5, 6, 7, 8], 1);
    assert_eq!(f.data, vec![3, 2, 1, 4, 7, 6, 5, 8]);
    assert_eq!(f.stride, 4);
    let odd = vec![1, 2, 3, 4, 5, 6, 7];
    assert_eq!(swap_red_and_blue(odd.clone()), vec![3, 2, 1, 4, 5, 6, 7]);
    assert_eq!(swap_red_and_blue(swap_red_and_blue(odd.clone())), odd);
}

#[test]
fn monitors_and_streams_are_picked() {
    assert_eq!(pick_monitor(&vec![]), None);
    assert_eq!(pick_monitor(&vec![None, Some(false)]), Some(0));
    assert_eq!(pick_monitor(&vec![Some(false), None, Some(true), Some(true)]), Some(2));
    assert_eq!(CaptureSetup::listed(None), CaptureSetup::Failed(CaptureError::NoContent));
    assert_eq!(CaptureSetup::listed(Some(0)), CaptureSetup::Failed(CaptureError::NoDisplay));
    assert_eq!(CaptureSetup::listed(Some(3)), CaptureSetup::Start { display: 0 });
    assert_eq!(CaptureSetup::started(true), CaptureSetup::Running);
    assert_eq!(CaptureSetup::started(false), CaptureSetup::Failed(CaptureError::NotStarted));
    assert_eq!(start_outcome(None), Err(CaptureError::OwnerGone));
    assert_eq!(start_outcome(Some(Ok(()))), Ok(()));
    assert_eq!(
        start_outcome(Some(Err(CaptureError::NoDisplay))),
        Err(CaptureError::NoDisplay)
    );
    assert_eq!(gap_micros(30), 33_333);
    assert_eq!(gap_micros(0), 1_000_000);
    assert_eq!(frame_gap(25), Duration::from_millis(40));
}

fn gray_i420(w: usize, h: usize) -> I420 {
    I420 {
        width: w,
        height: h,
        y: vec![128u8; w * h],
        u: vec![128u8; (w / 2) * (h / 2)],
        v: vec![128u8; (w / 2) * (h / 2)],
        y_stride: w,
        uv_stride: w / 2,
    }
}

fn encoder(bitrate_bps: u32, fps: f32) -> Openh264Encoder {
    let nanos = std::time::Duration::from_secs_f32(1.0 / fps).as_nanos();
    Openh264Encoder::new(64, 64, bitrate_bps, FrameRate::from_hz(fps), Duration { nanos }).unwrap()
}

/// Annex-B NAL unit types (5 low bits of the byte after each start code).
fn nal_types(annexb: &[u8]) -> Vec<u8> {
    let mut out = Vec::new();
    let mut i = 0;
    while i + 4 <= annexb.len() {
        let is_sc4 =
            annexb[i] == 0 && annexb[i + 1] == 0 && annexb[i + 2] == 0 && annexb[i + 3] == 1;
        let is_sc3 = annexb[i] == 0 && annexb[i + 1] == 0 && annexb[i + 2] == 1;
        if is_sc4 {
            out.push(annexb[i + 4] & 0x1f);
            i += 5;
        } else if is_sc3 {
            out.push(annexb[i + 3] & 0x1f);
            i += 4;
        } else {
            i += 1;
        }
    }
    out
}

// The first encoded frame must be a keyframe carrying SPS(7)+PPS(8)+IDR(5)
// NAL units (Annex-B start codes), so a fresh browser decoder can start.
#[test]
fn openh264_encoder_first_frame_is_keyframe_with_parameter_sets() {
    let mut enc = encoder(1_000_000, 30.0);
    let sample = enc.encode(&gray_i420(64, 64), true).unwrap();
    assert!(!sample.data.is_empty());
    assert!(sample.keyframe);
    let types = nal_types(&sample.data);
    assert!(types.contains(&7), "missing SPS; got {types:?}");
    assert!(types.contains(&8), "missing PPS; got {types:?}");
    assert!(types.contains(&5), "missing IDR; got {types:?}");
}

#[test]
fn subsequent_frame_encodes_without_error() {
    let mut enc = encoder(1_000_000, 30.0);
    let _ = enc.encode(&gray_i420(64, 64), true).unwrap();
    let s = enc.encode(&gray_i420(64, 64), false).unwrap();
    assert!(!s.data.is_empty());
}

#[test]
fn set_bitrate_rebuild_still_emits_keyframe() {
    let mut enc = encoder(1_000_000, 30.0);
    let _ = enc.encode(&gray_i420(64, 64), true).unwrap();
    enc.set_bitrate(4_000_000);
    // force_idr=false, but the rebuilt encoder must still emit SPS+PPS+IDR.
    let s = enc.encode(&gray_i420(64, 64), false).unwrap();
    assert!(s.keyframe);
    let types = nal_types(&s.data);
    assert!(types.contains(&7) && types.contains(&8) && types.contains(&5), "got {types:?}");
}

#[test]
fn reset_then_encode_emits_keyframe_with_parameter_sets() {
    let mut enc = encoder(1_000_000, 30.0);
    let _ = enc.encode(&gray_i420(64, 64), true).unwrap();
    enc.reset();
    let s = enc.encode(&gray_i420(64, 64), false).unwrap();
    assert!(s.keyframe);
    let types = nal_types(&s.data);
    assert!(types.contains(&7) && types.contains(&8) && types.contains(&5), "got {types:?}");
}

#[test]
fn keyframes_come_only_when_asked_for_or_due() {
    let mut enc = encoder(1_000_000, 2.0);
    let first = enc.encode(&gray_i420(64, 64), true).unwrap();
    assert_eq!(first.duration, Duration::from_millis(500));
    enc.set_bitrate(1_000_000); // the same: nothing changes
    let s = enc.encode(&gray_i420(64, 64), false).unwrap();
    assert!(!s.keyframe);
    assert!(!nal_types(&s.data).contains(&5));
    let s = enc.encode(&gray_i420(64, 64), true).unwrap();
    assert!(s.keyframe && nal_types(&s.data).contains(&5));
}

#[test]
fn frames_are_converted_and_encoded() {
    let mut enc = encoder(1_000_000, 30.0);
    let frame = solid_bgra(64, 48, 10, 200, 30);
    let s = enc.encode_frame(&frame, true).unwrap();
    assert!(s.keyframe && nal_types(&s.data).contains(&5));
    for (w, h) in [(4096, 16), (2162, 2162), (8, 64), (64, 14)] {
        let refused = enc.encode(&gray_i420(w, h), true);
        assert!(matches!(refused, Err(VideoError::Openh264(_))));
    }
}

#[test]
fn a_new_codec_opens_with_one_keyframe() {
    let mut enc = encoder(1_000_000, 30.0);
    let frame = gray_i420(64, 64);
    let mut next = |enc: &mut Openh264Encoder| enc.encode(&frame, false).unwrap().keyframe;
    assert!(!next(&mut enc));
    enc.set_bitrate(1_000_000); // in force already
    assert!(!next(&mut enc));
    enc.set_bitrate(2_000_000);
    assert!(next(&mut enc));
    assert!(!next(&mut enc));
    enc.reset();
    enc.set_bitrate(2_000_000);
    assert!(next(&mut enc));
    assert!(!next(&mut enc));
}

#[test]
fn results_of_the_codec_become_samples_and_errors() {
    let dur = Duration::from_millis(33);
    let ok = Openh264Encoder::sample_of(Ok(vec![1, 2, 3]), dur, true).unwrap();
    assert_eq!((ok.data, ok.duration, ok.keyframe), (vec![1, 2, 3], dur, true));
    let mut enc = encoder(1_000_000, 30.0);
    let failed = enc.encode(&gray_i420(4096, 16), false);
    let error = match failed {
        Err(VideoError::Openh264(e)) => e,
        _ => panic!("a picture of that size is refused"),
    };
    // a codec that could not be made leaves the one in use
    enc.adopt(Err(error), 9_000_000);
    let first = enc.encode(&gray_i420(64, 64), false).unwrap();
    assert!(!first.keyframe);
}
