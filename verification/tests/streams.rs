use transcode::media::{carries, MediaKind, Ratio};
use transcode::pipeline::{after_write_failure, next_remux_action, AfterWriteFailure, ReadOutcome, RemuxAction};
use transcode::streams::{plan_output_streams, InputStream, OutputStream, PacketRoute, ParamSource};

fn stream(kind: MediaKind, tb: i32) -> InputStream {
    InputStream {
        kind,
        time_base: Ratio { num: 1, den: tb },
        avg_frame_rate: Ratio { num: 30000, den: 1001 },
        rate: Ratio { num: 60, den: 1 },
    }
}

fn mixed() -> Vec<InputStream> {
    vec![
        stream(MediaKind::Video, 15360),
        stream(MediaKind::Audio, 48000),
        stream(MediaKind::Data, 1000),
        stream(MediaKind::Subtitle, 1000),
        stream(MediaKind::Attachment, 1),
        stream(MediaKind::Audio, 44100),
    ]
}

#[test]
fn carried_kinds() {
    assert!(carries(MediaKind::Video));
    assert!(carries(MediaKind::Audio));
    assert!(carries(MediaKind::Subtitle));
    assert!(!carries(MediaKind::Data));
    assert!(!carries(MediaKind::Attachment));
    assert!(!carries(MediaKind::Unknown));
}

#[test]
fn index_list_numbers_carried_streams_in_order() {
    let plan = plan_output_streams(mixed());
    assert_eq!(plan.index_list(), &vec![0, 1, -1, 2, -1, 3]);
    assert_eq!(plan.input_count(), 6);
}

#[test]
fn outputs_are_made_from_their_inputs() {
    let plan = plan_output_streams(mixed());
    let outs = plan.outputs();
    assert_eq!(outs.len(), 4);
    assert_eq!(
        outs[0],
        OutputStream {
            input: 0,
            params: ParamSource::Encoder,
            codec_tag: 0,
            time_base: Ratio { num: 1, den: 15360 },
            avg_frame_rate: Ratio { num: 30000, den: 1001 },
            r_frame_rate: Ratio { num: 60, den: 1 },
        }
    );
    assert_eq!(outs[1].input, 1);
    assert_eq!(outs[1].params, ParamSource::Input);
    assert_eq!(outs[1].time_base, Ratio { num: 1, den: 48000 });
    assert_eq!(outs[2].input, 3);
    assert_eq!(outs[2].params, ParamSource::Input);
    assert_eq!(outs[3].input, 5);
    assert_eq!(outs[3].time_base, Ratio { num: 1, den: 44100 });
    for o in outs.iter() {
        assert_eq!(o.codec_tag, 0);
    }
}

#[test]
fn every_output_points_back_to_its_input() {
    let plan = plan_output_streams(mixed());
    for (o, out) in plan.outputs().iter().enumerate() {
        assert_eq!(plan.output_of(out.input), Some(o));
    }
}

#[test]
fn output_of_dropped_stream_is_none() {
    let plan = plan_output_streams(mixed());
    assert_eq!(plan.output_of(2), None);
    assert_eq!(plan.output_of(4), None);
    assert_eq!(plan.output_of(3), Some(2));
}

#[test]
fn empty_input_plans_nothing() {
    let plan = plan_output_streams(Vec::new());
    assert!(plan.index_list().is_empty());
    assert!(plan.outputs().is_empty());
}

#[test]
fn input_without_carried_streams_plans_nothing() {
    let plan = plan_output_streams(vec![stream(MediaKind::Data, 1), stream(MediaKind::Unknown, 1)]);
    assert_eq!(plan.index_list(), &vec![-1, -1]);
    assert!(plan.outputs().is_empty());
}

#[test]
fn packets_are_routed_by_kind() {
    let plan = plan_output_streams(mixed());
    assert_eq!(plan.route(0), PacketRoute::Transcode { output: 0 });
    assert_eq!(plan.route(1), PacketRoute::Copy { output: 1 });
    assert_eq!(plan.route(2), PacketRoute::Skip);
    assert_eq!(plan.route(3), PacketRoute::Copy { output: 2 });
    assert_eq!(plan.route(4), PacketRoute::Skip);
    assert_eq!(plan.route(5), PacketRoute::Copy { output: 3 });
}

#[test]
fn video_not_first_still_transcoded_to_its_output() {
    let plan = plan_output_streams(vec![stream(MediaKind::Audio, 48000), stream(MediaKind::Video, 90000)]);
    assert_eq!(plan.route(1), PacketRoute::Transcode { output: 1 });
    assert_eq!(plan.outputs()[1].params, ParamSource::Encoder);
    assert_eq!(plan.outputs()[0].params, ParamSource::Input);
}

#[test]
fn remux_loop_stops_at_end_or_failure() {
    let plan = plan_output_streams(mixed());
    assert_eq!(next_remux_action(&plan, ReadOutcome::EndOfFile), RemuxAction::Finish);
    assert_eq!(next_remux_action(&plan, ReadOutcome::Failed), RemuxAction::Finish);
    assert_eq!(
        next_remux_action(&plan, ReadOutcome::Packet { stream: 0, kind: MediaKind::Video }),
        RemuxAction::Transcode { output: 0 }
    );
    assert_eq!(
        next_remux_action(&plan, ReadOutcome::Packet { stream: 3, kind: MediaKind::Subtitle }),
        RemuxAction::Copy { output: 2 }
    );
    assert_eq!(
        next_remux_action(&plan, ReadOutcome::Packet { stream: 2, kind: MediaKind::Data }),
        RemuxAction::Skip
    );
}

#[test]
fn packets_of_streams_added_later_are_skipped() {
    let plan = plan_output_streams(mixed());
    assert_eq!(
        next_remux_action(&plan, ReadOutcome::Packet { stream: 6, kind: MediaKind::Audio }),
        RemuxAction::Skip
    );
    assert_eq!(
        next_remux_action(&plan, ReadOutcome::Packet { stream: 9, kind: MediaKind::Subtitle }),
        RemuxAction::Skip
    );
    assert_eq!(
        next_remux_action(&plan, ReadOutcome::Packet { stream: 7, kind: MediaKind::Data }),
        RemuxAction::Skip
    );
}

#[test]
fn write_failure_responses() {
    assert_eq!(after_write_failure(PacketRoute::Transcode { output: 0 }), AfterWriteFailure::NextFrame);
    assert_eq!(after_write_failure(PacketRoute::Copy { output: 1 }), AfterWriteFailure::Finish);
}
