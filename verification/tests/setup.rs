use std::path::PathBuf;
use transcode::decoding::{decoder_thread_count, frame_is_video};
use transcode::media::Ratio;
use transcode::output::{plan_video_encoder, EncoderPlan, OutputFormatFlags, TARGET_HEIGHT, TARGET_WIDTH};
use transcode::transcode::TranscoderConfig;

#[test]
fn thread_count_defaults_to_one() {
    assert_eq!(decoder_thread_count(None), 1);
    assert_eq!(decoder_thread_count(Some(8)), 8);
    assert_eq!(decoder_thread_count(Some(0)), 0);
}

#[test]
fn video_frames_have_width() {
    assert!(frame_is_video(1920));
    assert!(frame_is_video(1));
    assert!(!frame_is_video(0));
    assert!(!frame_is_video(-1));
}

#[test]
fn io_context_only_for_file_muxers() {
    let file = OutputFormatFlags { no_file: false, global_header: true };
    let nofile = OutputFormatFlags { no_file: true, global_header: false };
    assert!(file.needs_io_open());
    assert!(!nofile.needs_io_open());
    assert!(file.needs_io_close(true));
    assert!(!file.needs_io_close(false));
    assert!(!nofile.needs_io_close(true));
}

#[test]
fn encoder_is_planned_from_the_input_video() {
    let plan = plan_video_encoder(
        Ratio { num: 1, den: 15360 },
        Ratio { num: 60, den: 1 },
        4_000_000,
        OutputFormatFlags { no_file: false, global_header: true },
    );
    assert_eq!(
        plan,
        EncoderPlan {
            width: 1280,
            height: 720,
            time_base: Ratio { num: 1, den: 15360 },
            frame_rate: Some(Ratio { num: 60, den: 1 }),
            bit_rate: 4_000_000,
            global_header: true,
        }
    );
    assert_eq!((TARGET_WIDTH, TARGET_HEIGHT), (1280, 720));
    let plain = plan_video_encoder(
        Ratio { num: 1, den: 90000 },
        Ratio { num: 25, den: 1 },
        0,
        OutputFormatFlags { no_file: false, global_header: false },
    );
    assert!(!plain.global_header);
}

#[test]
fn config_holds_its_values() {
    let cfg = TranscoderConfig::new(
        PathBuf::from("./small_bunny_1080p_60fps.mp4"),
        PathBuf::from("./its_mpd.mpd"),
        Some("h264_mf"),
        1280,
        720,
    );
    assert_eq!(cfg.input, PathBuf::from("./small_bunny_1080p_60fps.mp4"));
    assert_eq!(cfg.output, PathBuf::from("./its_mpd.mpd"));
    assert_eq!(cfg.encoder_name, Some("h264_mf"));
    assert_eq!((cfg.width, cfg.height), (1280, 720));
    let none: TranscoderConfig<String> = TranscoderConfig::new(PathBuf::new(), PathBuf::new(), None, 0, 0);
    assert!(none.encoder_name.is_none());
}
