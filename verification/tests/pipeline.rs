use winrec::codec::{decode_gif, delay_cs, fps_of_delay, Gif, LoopCount};
use winrec::command::command_from_line;
use winrec::edit::{cut_frames, scaled_delay_cs, Ratio};
use winrec::error::Error;
use winrec::frame::{bgrx_to_rgba, Frames, Image};
use winrec::geometry::Geometry;
use winrec::split::{decimal_width, frame_file_name, split_names};

fn image(w: u32, h: u32, tag: u8) -> Image {
    let mut data = vec![0u8; (w * h * 4) as usize];
    for px in data.chunks_mut(4) {
        px[0] = tag;
        px[3] = 0xff;
    }
    Image::new(data, Geometry::new(0, 0, w, h))
}

fn frames_of(n: u8, fps: u32) -> Frames {
    Frames::new((0..n).map(|i| image(2, 2, i * 20)).collect(), fps)
}

#[test]
fn test_delay_quantization() {
    assert_eq!(delay_cs(10), 10);
    assert_eq!(delay_cs(3), 33);
    assert_eq!(delay_cs(8), 13);
    assert_eq!(delay_cs(1), 100);
    assert_eq!(delay_cs(200), 1);
}

#[test]
fn test_rate_of_delay() {
    assert_eq!(fps_of_delay(0), 100);
    assert_eq!(fps_of_delay(10), 10);
    assert_eq!(fps_of_delay(33), 3);
    assert_eq!(fps_of_delay(13), 8);
    assert_eq!(fps_of_delay(300), 1);
}

#[test]
fn test_speed_factor_scales_delay() {
    let double = Ratio::new(2, 1);
    let half = Ratio::new(1, 2);
    assert_eq!(scaled_delay_cs(10, double), 5);
    assert_eq!(scaled_delay_cs(10, half), 20);
    assert_eq!(scaled_delay_cs(7, double), 4);
    assert_eq!(scaled_delay_cs(0, double), 0);
}

#[test]
fn test_encode_decode_round_trip() {
    // through the real codec: two frames at 10 fps come back as two
    // frames, at a rate within one centisecond-quantization step
    let frames = frames_of(2, 10);
    let mut gif = Gif::new(10, Geometry::new(0, 0, 2, 2), false, LoopCount::Infinite).unwrap();
    assert_eq!(gif.delay_cs, 10);
    gif.save(&frames).unwrap();
    assert_eq!(gif.frames_written, 2);
    let bytes = gif.finish().unwrap();
    assert!(!bytes.is_empty());
    let decoded = decode_gif(bytes).unwrap();
    assert_eq!(decoded.images.len(), 2);
    assert_eq!(decoded.fps, 10);
    for img in &decoded.images {
        assert_eq!(img.geometry.width, 2);
        assert_eq!(img.geometry.height, 2);
        assert_eq!(img.data.len(), 16);
    }
}

#[test]
fn test_encode_applies_speed_factor() {
    let frames = frames_of(2, 10);
    let mut gif = Gif::new(10, Geometry::new(0, 0, 2, 2), false, LoopCount::Finite(3)).unwrap();
    gif.set_speed_factor(Ratio::new(2, 1));
    assert_eq!(gif.delay_cs, 5);
    gif.save(&frames).unwrap();
    let decoded = decode_gif(gif.finish().unwrap()).unwrap();
    assert_eq!(decoded.fps, 20);
}

#[test]
fn test_decode_rejects_garbage() {
    assert!(matches!(decode_gif(vec![1, 2, 3, 4]), Err(Error::DecodeFailed)));
    assert!(matches!(decode_gif(Vec::new()), Err(Error::DecodeFailed)));
}

#[test]
fn test_cut_removes_proportions_from_both_ends() {
    // cutting (0.1, 0.1) from 10 frames drops frame 0 and frame 9
    let frames = Frames::new((0..10).map(|i| image(2, 2, i)).collect(), 10);
    let tenth = Ratio::new(1, 10);
    let cut = cut_frames(&frames, tenth, tenth);
    assert_eq!(cut.images.len(), 8);
    assert_eq!(cut.fps, 10);
    assert_eq!(cut.images[0].data[0], 1);
    assert_eq!(cut.images[7].data[0], 8);
}

#[test]
fn test_cut_edge_cases() {
    let frames = Frames::new((0..4).map(|i| image(2, 2, i)).collect(), 10);
    let all = Ratio::new(1, 1);
    let none = Ratio::new(0, 1);
    assert_eq!(cut_frames(&frames, all, none).images.len(), 0);
    assert_eq!(cut_frames(&frames, none, none).images.len(), 4);
    let empty = Frames::new(Vec::new(), 10);
    assert_eq!(cut_frames(&empty, none, none).images.len(), 0);
}

#[test]
fn test_split_names_five_frames() {
    // a 5-frame split: exactly 5 files, zero-padded index, requested
    // extension
    let names = split_names(5, "png");
    assert_eq!(names.len(), 5);
    let expected = ["frame_0.png", "frame_1.png", "frame_2.png", "frame_3.png", "frame_4.png"];
    for (name, want) in names.iter().zip(expected.iter()) {
        assert_eq!(name.as_str(), *want);
    }
}

#[test]
fn test_split_names_are_padded_and_distinct() {
    let names = split_names(11, "jpg");
    assert_eq!(names.len(), 11);
    assert_eq!(names[0].as_str(), "frame_00.jpg");
    assert_eq!(names[9].as_str(), "frame_09.jpg");
    assert_eq!(names[10].as_str(), "frame_10.jpg");
    for i in 0..names.len() {
        for j in 0..i {
            assert_ne!(names[i], names[j]);
        }
    }
}

#[test]
fn test_decimal_width_and_file_name() {
    assert_eq!(decimal_width(0), 1);
    assert_eq!(decimal_width(9), 1);
    assert_eq!(decimal_width(10), 2);
    assert_eq!(decimal_width(12345), 5);
    assert_eq!(frame_file_name(7, 4, "png").as_str(), "frame_0007.png");
    assert_eq!(frame_file_name(12345, 2, "png").as_str(), "frame_12345.png");
}

#[test]
fn test_bgrx_to_rgba_reorders_channels() {
    // two BGRx pixels and a trailing byte short of a pixel
    let raw = vec![1u8, 2, 3, 9, 4, 5, 6, 0, 7];
    let rgba = bgrx_to_rgba(&raw);
    assert_eq!(rgba, vec![3, 2, 1, 255, 6, 5, 4, 255]);
    assert!(bgrx_to_rgba(&Vec::new()).is_empty());
}

#[test]
fn test_command_from_line() {
    let bare = command_from_line("ls");
    assert_eq!(bare.program.as_str(), "ls");
    assert!(bare.args.is_empty());
    let shelled = command_from_line("sleep 0.3");
    assert_eq!(shelled.program.as_str(), "sh");
    assert_eq!(shelled.args.len(), 2);
    assert_eq!(shelled.args[0].as_str(), "-c");
    assert_eq!(shelled.args[1].as_str(), "sleep 0.3");
}

#[test]
fn test_error_outcome_classification() {
    assert!(Error::SelectionCancelled.is_user_outcome());
    assert!(Error::SelectionTimedOut.is_user_outcome());
    assert!(!Error::CaptureFailed.is_user_outcome());
    assert!(!Error::DecodeFailed.is_user_outcome());
}
