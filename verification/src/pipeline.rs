use vstd::prelude::*;
use crate::media::MediaKind;
use crate::streams::{packet_route, InputStream, PacketRoute, StreamPlan};

verus! {

/// What an attempt to read the next packet from the input gave.
#[derive(Clone, Copy, Debug, PartialEq, Eq, Structural)]
pub enum ReadOutcome {
    /// A packet of input stream `stream`, whose media kind is `kind`. The
    /// stream may have appeared after the plan was made.
    Packet { stream: usize, kind: MediaKind },
    /// The input is exhausted.
    EndOfFile,
    /// Reading failed.
    Failed,
}

/// What the remux loop does next.
#[derive(Clone, Copy, Debug, PartialEq, Eq, Structural)]
pub enum RemuxAction {
    /// Send the packet to the decoder and write what the encoder produces to
    /// output stream `output`.
    Transcode { output: usize },
    /// Write the packet to output stream `output`.
    Copy { output: usize },
    /// Drop the packet and read the next one.
    Skip,
    /// Stop reading and flush the decoder and the encoder.
    Finish,
}

/// What the loop does after a packet could not be written.
#[derive(Clone, Copy, Debug, PartialEq, Eq, Structural)]
pub enum AfterWriteFailure {
    /// Leave the remaining encoded packets of the current frame and go on
    /// with the next decoded frame.
    NextFrame,
    /// Stop reading and flush.
    Finish,
}

/// The remux loop's decision for a read outcome.
pub open spec fn remux_action(inputs: Seq<InputStream>, outcome: ReadOutcome) -> RemuxAction {
    match outcome {
        ReadOutcome::Packet { stream, .. } => if stream >= inputs.len() {
            RemuxAction::Skip
        } else {
            match packet_route(inputs, stream as int) {
                PacketRoute::Transcode { output } => RemuxAction::Transcode { output },
                PacketRoute::Copy { output } => RemuxAction::Copy { output },
                PacketRoute::Skip => RemuxAction::Skip,
            }
        },
        _ => RemuxAction::Finish,
    }
}

/// Decides what the remux loop does with the outcome of a read: packets of
/// planned streams are routed by the kind the plan recorded for their stream, packets of streams that
/// appeared after the plan was made (which have no output) are dropped, and
/// the end of the input or a read failure ends the loop.
pub fn next_remux_action(plan: &StreamPlan, outcome: ReadOutcome) -> (res: RemuxAction)
    requires
        outcome matches ReadOutcome::Packet { stream, kind } ==> (stream >= plan.inputs().len()
            ==> kind != MediaKind::Video),
    ensures
        res == remux_action(plan.inputs(), outcome),
        outcome matches ReadOutcome::Packet { stream, .. } && stream >= plan.inputs().len() ==> res
            == RemuxAction::Skip,
        !(outcome is Packet) ==> res == RemuxAction::Finish,
        outcome matches ReadOutcome::Packet { stream, .. } ==> (stream < plan.inputs().len() ==> {
            let k = plan.inputs()[stream as int].kind;
            let o = plan.indices()[stream as int];
            &&& k == MediaKind::Video ==> res == (RemuxAction::Transcode { output: o as usize })
            &&& (k == MediaKind::Audio || k == MediaKind::Subtitle) ==> res == (RemuxAction::Copy {
                output: o as usize,
            })
            &&& !(k == MediaKind::Video || k == MediaKind::Audio || k == MediaKind::Subtitle) ==> res
                == RemuxAction::Skip
            &&& !(res is Skip) ==> 0 <= o < plan.output_streams().len()
                && plan.output_streams()[o as int].input == stream
        }),
{
    match outcome {
        ReadOutcome::Packet { stream, kind: _ } => {
            if stream >= plan.input_count() {
                RemuxAction::Skip
            } else {
                match plan.route(stream) {
                    PacketRoute::Transcode { output } => RemuxAction::Transcode { output },
                    PacketRoute::Copy { output } => RemuxAction::Copy { output },
                    PacketRoute::Skip => RemuxAction::Skip,
                }
            }
        },
        ReadOutcome::EndOfFile => RemuxAction::Finish,
        ReadOutcome::Failed => RemuxAction::Finish,
    }
}

/// What follows a failed write of a packet sent along `route`: a re-encoded
/// packet only ends the current frame's packets, a copied packet ends the
/// reading.
pub fn after_write_failure(route: PacketRoute) -> (res: AfterWriteFailure)
    requires
        !(route is Skip),
    ensures
        route is Transcode ==> res == AfterWriteFailure::NextFrame,
        route is Copy ==> res == AfterWriteFailure::Finish,
{
    match route {
        PacketRoute::Transcode { .. } => AfterWriteFailure::NextFrame,
        _ => AfterWriteFailure::Finish,
    }
}

} // verus!
