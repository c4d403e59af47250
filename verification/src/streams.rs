use vstd::prelude::*;
use crate::media::{carries, is_carried, MediaKind, Ratio};

verus! {

/// Where the codec parameters of an output stream come from.
#[derive(Clone, Copy, Debug, PartialEq, Eq, Structural)]
pub enum ParamSource {
    /// Taken from the opened video encoder (the stream is re-encoded).
    Encoder,
    /// Copied from the input stream (the stream is passed through).
    Input,
}

/// What the transcoder reads of an input stream.
#[derive(Clone, Copy, Debug, PartialEq, Eq, Structural)]
pub struct InputStream {
    pub kind: MediaKind,
    pub time_base: Ratio,
    pub avg_frame_rate: Ratio,
    pub rate: Ratio,
}

/// How an output stream is to be created.
#[derive(Clone, Copy, Debug, PartialEq, Eq, Structural)]
pub struct OutputStream {
    /// Index of the input stream it is made from.
    pub input: usize,
    pub params: ParamSource,
    /// The codec tag is always cleared, so that the muxer picks its own.
    pub codec_tag: u32,
    pub time_base: Ratio,
    pub avg_frame_rate: Ratio,
    pub r_frame_rate: Ratio,
}

/// Where a demuxed packet of a given input stream goes.
#[derive(Clone, Copy, Debug, PartialEq, Eq, Structural)]
pub enum PacketRoute {
    /// Decode, scale and re-encode; the encoded packets go to output `output`.
    Transcode { output: usize },
    /// Pass the packet through unchanged to output `output`.
    Copy { output: usize },
    /// Drop the packet.
    Skip,
}

pub open spec fn param_source_of(kind: MediaKind) -> ParamSource {
    if kind == MediaKind::Video {
        ParamSource::Encoder
    } else {
        ParamSource::Input
    }
}

/// The output stream made from input stream `s`, which has index `index`.
pub open spec fn output_stream_for(s: InputStream, index: int) -> OutputStream {
    OutputStream {
        input: index as usize,
        params: param_source_of(s.kind),
        codec_tag: 0,
        time_base: s.time_base,
        avg_frame_rate: s.avg_frame_rate,
        r_frame_rate: s.rate,
    }
}

/// Number of carried streams in `s`.
pub open spec fn carried_count(s: Seq<InputStream>) -> nat
    decreases s.len(),
{
    if s.len() == 0 {
        0
    } else {
        carried_count(s.drop_last()) + if is_carried(s.last().kind) { 1nat } else { 0nat }
    }
}

/// Index of the output stream of input `i`: the number of carried streams before it.
pub open spec fn output_index(s: Seq<InputStream>, i: int) -> int {
    carried_count(s.take(i)) as int
}

/// For each input stream, the index of its output stream, or -1 where it is dropped.
pub open spec fn stream_index_list(s: Seq<InputStream>) -> Seq<i32> {
    Seq::new(
        s.len(),
        |i: int|
            if is_carried(s[i].kind) {
                output_index(s, i) as i32
            } else {
                -1i32
            },
    )
}

/// The output streams, in the order in which they are created.
pub open spec fn planned_outputs(s: Seq<InputStream>) -> Seq<OutputStream>
    decreases s.len(),
{
    if s.len() == 0 {
        Seq::empty()
    } else {
        let prev = planned_outputs(s.drop_last());
        if is_carried(s.last().kind) {
            prev.push(output_stream_for(s.last(), s.len() - 1))
        } else {
            prev
        }
    }
}

/// Where a packet of input stream `i` goes.
pub open spec fn packet_route(s: Seq<InputStream>, i: int) -> PacketRoute {
    let kind = s[i].kind;
    if kind == MediaKind::Video {
        PacketRoute::Transcode { output: output_index(s, i) as usize }
    } else if kind == MediaKind::Audio || kind == MediaKind::Subtitle {
        PacketRoute::Copy { output: output_index(s, i) as usize }
    } else {
        PacketRoute::Skip
    }
}


proof fn lemma_count_step(s: Seq<InputStream>, i: int)
    requires
        0 <= i < s.len(),
    ensures
        carried_count(s.take(i + 1)) == carried_count(s.take(i)) + if is_carried(s[i].kind) {
            1nat
        } else {
            0nat
        },
{
    assert(s.take(i + 1).drop_last() =~= s.take(i));
    assert(s.take(i + 1).last() == s[i]);
}

proof fn lemma_count_bounded(s: Seq<InputStream>)
    ensures
        carried_count(s) <= s.len(),
    decreases s.len(),
{
    if s.len() > 0 {
        lemma_count_bounded(s.drop_last());
    }
}

proof fn lemma_count_monotone(s: Seq<InputStream>, i: int, j: int)
    requires
        0 <= i <= j <= s.len(),
    ensures
        carried_count(s.take(i)) <= carried_count(s.take(j)),
    decreases j - i,
{
    if i < j {
        lemma_count_step(s, j - 1);
        lemma_count_monotone(s, i, j - 1);
    }
}

proof fn lemma_outputs_len(s: Seq<InputStream>)
    ensures
        planned_outputs(s).len() == carried_count(s),
    decreases s.len(),
{
    if s.len() > 0 {
        lemma_outputs_len(s.drop_last());
    }
}

proof fn lemma_output_index_prefix(s: Seq<InputStream>, i: int)
    requires
        0 <= i < s.len(),
    ensures
        output_index(s, i) == output_index(s.drop_last(), i) || i == s.len() - 1,
        i == s.len() - 1 ==> output_index(s, i) == carried_count(s.drop_last()),
{
    if i < s.len() - 1 {
        assert(s.take(i) =~= s.drop_last().take(i));
    } else {
        assert(s.take(i) =~= s.drop_last());
    }
}

proof fn lemma_output_of_input(s: Seq<InputStream>, i: int)
    requires
        0 <= i < s.len(),
        is_carried(s[i].kind),
    ensures
        0 <= output_index(s, i) < planned_outputs(s).len(),
        planned_outputs(s)[output_index(s, i)] == output_stream_for(s[i], i),
    decreases s.len(),
{
    let prev = s.drop_last();
    lemma_outputs_len(prev);
    lemma_output_index_prefix(s, i);
    if i < s.len() - 1 {
        assert(prev[i] == s[i]);
        lemma_output_of_input(prev, i);
    }
}

proof fn lemma_input_of_output(s: Seq<InputStream>, o: int)
    requires
        s.len() <= usize::MAX,
        0 <= o < planned_outputs(s).len(),
    ensures
        ({
            let i = planned_outputs(s)[o].input as int;
            &&& 0 <= i < s.len()
            &&& is_carried(s[i].kind)
            &&& output_index(s, i) == o
            &&& planned_outputs(s)[o] == output_stream_for(s[i], i)
        }),
    decreases s.len(),
{
    let prev = s.drop_last();
    lemma_outputs_len(prev);
    lemma_outputs_len(s);
    if o < planned_outputs(prev).len() {
        lemma_input_of_output(prev, o);
        let i = planned_outputs(prev)[o].input as int;
        assert(planned_outputs(s)[o] == planned_outputs(prev)[o]);
        lemma_output_index_prefix(s, i);
        assert(prev[i] == s[i]);
    } else {
        assert(is_carried(s.last().kind));
        lemma_output_index_prefix(s, s.len() - 1);
    }
}

/// Every carried input stream has an output stream, made from it: its index
/// is in range, the output records it as its source, copies its time base and
/// frame rates, clears the codec tag, and takes its parameters from the
/// encoder exactly when the input is video.
pub proof fn lemma_carried_input_has_its_output(s: Seq<InputStream>, i: int)
    requires
        0 <= i < s.len(),
        is_carried(s[i].kind),
    ensures
        0 <= output_index(s, i) < planned_outputs(s).len(),
        planned_outputs(s)[output_index(s, i)] == output_stream_for(s[i], i),
{
    lemma_output_of_input(s, i);
}

/// Every output stream is made from exactly the carried input stream whose
/// output index it has: no output stream comes from nowhere.
pub proof fn lemma_output_has_its_input(s: Seq<InputStream>, o: int)
    requires
        s.len() <= usize::MAX,
        0 <= o < planned_outputs(s).len(),
    ensures
        ({
            let i = planned_outputs(s)[o].input as int;
            &&& 0 <= i < s.len()
            &&& is_carried(s[i].kind)
            &&& output_index(s, i) == o
        }),
{
    lemma_input_of_output(s, o);
}

/// Output streams keep the order of their input streams: of two carried
/// inputs, the earlier one gets the smaller output index. In particular no two
/// carried inputs share an output.
pub proof fn lemma_output_order_follows_input_order(s: Seq<InputStream>, i: int, j: int)
    requires
        0 <= i < j < s.len(),
        is_carried(s[i].kind),
    ensures
        output_index(s, i) < output_index(s, j),
{
    lemma_count_step(s, i);
    lemma_count_monotone(s, i + 1, j);
}

/// There are as many output streams as carried input streams, and the index
/// list has one entry per input stream: -1 exactly for the dropped ones, and a
/// valid output index for the others.
pub proof fn lemma_index_list_shape(s: Seq<InputStream>, i: int)
    requires
        s.len() <= i32::MAX,
        0 <= i < s.len(),
    ensures
        planned_outputs(s).len() == carried_count(s),
        stream_index_list(s).len() == s.len(),
        stream_index_list(s)[i] == -1 <==> !is_carried(s[i].kind),
        is_carried(s[i].kind) ==> stream_index_list(s)[i] == output_index(s, i) && 0
            <= stream_index_list(s)[i] < planned_outputs(s).len(),
{
    lemma_outputs_len(s);
    lemma_count_bounded(s.take(i));
    if is_carried(s[i].kind) {
        lemma_output_of_input(s, i);
    }
}

/// A packet that is not dropped reaches the output stream made from its own
/// input stream; it is re-encoded exactly when that output takes its
/// parameters from the encoder, and copied exactly when they come from the
/// input. Only video, audio and subtitle packets are kept.
pub proof fn lemma_routed_packet_reaches_own_output(s: Seq<InputStream>, i: int)
    requires
        s.len() <= usize::MAX,
        0 <= i < s.len(),
    ensures
        packet_route(s, i) is Skip <==> !is_carried(s[i].kind),
        packet_route(s, i) matches PacketRoute::Transcode { output } ==> {
            &&& output < planned_outputs(s).len()
            &&& planned_outputs(s)[output as int].input == i
            &&& planned_outputs(s)[output as int].params == ParamSource::Encoder
        },
        packet_route(s, i) matches PacketRoute::Copy { output } ==> {
            &&& output < planned_outputs(s).len()
            &&& planned_outputs(s)[output as int].input == i
            &&& planned_outputs(s)[output as int].params == ParamSource::Input
        },
{
    lemma_count_bounded(s.take(i));
    if is_carried(s[i].kind) {
        lemma_output_of_input(s, i);
    }
}

/// The planning laws, stated on the fields of the planned outputs and index
/// list of inputs `s`:
/// every output is made from a kept (video, audio or subtitle) input whose
/// index entry points back to it, copies that input's time base and frame
/// rates, clears the codec tag and takes the encoder's parameters exactly for
/// video; every kept input has an output that records it as its source;
/// every other input has index -1; and kept inputs get increasing indices.
pub proof fn lemma_plan_fields(s: Seq<InputStream>)
    requires
        s.len() <= i32::MAX,
    ensures
        stream_index_list(s).len() == s.len(),
        forall|o: int|
            #![trigger planned_outputs(s)[o]]
            0 <= o < planned_outputs(s).len() ==> {
                let out = planned_outputs(s)[o];
                let i = out.input as int;
                &&& 0 <= i < s.len()
                &&& (s[i].kind == MediaKind::Video || s[i].kind == MediaKind::Audio || s[i].kind
                    == MediaKind::Subtitle)
                &&& stream_index_list(s)[i] == o
                &&& out.time_base == s[i].time_base
                &&& out.avg_frame_rate == s[i].avg_frame_rate
                &&& out.r_frame_rate == s[i].rate
                &&& out.codec_tag == 0
                &&& (out.params == ParamSource::Encoder <==> s[i].kind == MediaKind::Video)
                &&& (out.params == ParamSource::Input <==> s[i].kind != MediaKind::Video)
            },
        forall|i: int|
            #![trigger stream_index_list(s)[i]]
            0 <= i < s.len() ==> if s[i].kind == MediaKind::Video || s[i].kind == MediaKind::Audio
                || s[i].kind == MediaKind::Subtitle {
                &&& 0 <= stream_index_list(s)[i] < planned_outputs(s).len()
                &&& planned_outputs(s)[stream_index_list(s)[i] as int].input == i
            } else {
                stream_index_list(s)[i] == -1
            },
        forall|i: int, j: int|
            #![trigger stream_index_list(s)[i], stream_index_list(s)[j]]
            0 <= i < j < s.len() && (s[i].kind == MediaKind::Video || s[i].kind == MediaKind::Audio
                || s[i].kind == MediaKind::Subtitle) && (s[j].kind == MediaKind::Video || s[j].kind
                == MediaKind::Audio || s[j].kind == MediaKind::Subtitle) ==> stream_index_list(s)[i]
                < stream_index_list(s)[j],
{
    assert forall|o: int|
        #![trigger planned_outputs(s)[o]]
        0 <= o < planned_outputs(s).len() implies {
            let out = planned_outputs(s)[o];
            let i = out.input as int;
            &&& 0 <= i < s.len()
            &&& (s[i].kind == MediaKind::Video || s[i].kind == MediaKind::Audio || s[i].kind
                == MediaKind::Subtitle)
            &&& stream_index_list(s)[i] == o
            &&& out.time_base == s[i].time_base
            &&& out.avg_frame_rate == s[i].avg_frame_rate
            &&& out.r_frame_rate == s[i].rate
            &&& out.codec_tag == 0
            &&& (out.params == ParamSource::Encoder <==> s[i].kind == MediaKind::Video)
            &&& (out.params == ParamSource::Input <==> s[i].kind != MediaKind::Video)
        } by {
        lemma_input_of_output(s, o);
        let i = planned_outputs(s)[o].input as int;
        lemma_index_list_shape(s, i);
    }
    assert forall|i: int|
        #![trigger stream_index_list(s)[i]]
        0 <= i < s.len() implies if s[i].kind == MediaKind::Video || s[i].kind == MediaKind::Audio
            || s[i].kind == MediaKind::Subtitle {
            &&& 0 <= stream_index_list(s)[i] < planned_outputs(s).len()
            &&& planned_outputs(s)[stream_index_list(s)[i] as int].input == i
        } else {
            stream_index_list(s)[i] == -1
        } by {
        lemma_index_list_shape(s, i);
        if is_carried(s[i].kind) {
            lemma_output_of_input(s, i);
        }
    }
    assert forall|i: int, j: int|
        #![trigger stream_index_list(s)[i], stream_index_list(s)[j]]
        0 <= i < j < s.len() && (s[i].kind == MediaKind::Video || s[i].kind == MediaKind::Audio
            || s[i].kind == MediaKind::Subtitle) && (s[j].kind == MediaKind::Video || s[j].kind
            == MediaKind::Audio || s[j].kind == MediaKind::Subtitle) implies stream_index_list(s)[i]
            < stream_index_list(s)[j] by {
        lemma_index_list_shape(s, i);
        lemma_index_list_shape(s, j);
        lemma_output_order_follows_input_order(s, i, j);
    }
}

/// The output streams of a transcode, planned from its input streams, and the
/// index list that tells for each input stream which output stream it feeds.
pub struct StreamPlan {
    inputs: Vec<InputStream>,
    index_list: Vec<i32>,
    outputs: Vec<OutputStream>,
}

impl StreamPlan {
    #[verifier::type_invariant]
    spec fn is_consistent(self) -> bool {
        &&& self.inputs@.len() <= i32::MAX
        &&& self.index_list@ == stream_index_list(self.inputs@)
        &&& self.outputs@ == planned_outputs(self.inputs@)
    }

    /// The input streams the plan was made from.
    pub closed spec fn inputs(&self) -> Seq<InputStream> {
        self.inputs@
    }

    /// The index list: for each input stream, its output index or -1.
    pub closed spec fn indices(&self) -> Seq<i32> {
        self.index_list@
    }

    /// The planned output streams, in order.
    pub closed spec fn output_streams(&self) -> Seq<OutputStream> {
        self.outputs@
    }

    /// For each input stream, the index of its output stream, or -1 where the
    /// stream is dropped.
    pub fn index_list(&self) -> (res: &Vec<i32>)
        ensures
            res@ == stream_index_list(self.inputs()),
            res@ == self.indices(),
    {
        proof {
            use_type_invariant(self);
        }
        &self.index_list
    }

    /// The output streams to create, in order.
    pub fn outputs(&self) -> (res: &Vec<OutputStream>)
        ensures
            res@ == planned_outputs(self.inputs()),
            res@ == self.output_streams(),
            forall|o: int|
                #![trigger res@[o]]
                0 <= o < res@.len() ==> {
                    let i = res@[o].input as int;
                    &&& 0 <= i < self.inputs().len()
                    &&& self.indices()[i] == o
                    &&& res@[o].time_base == self.inputs()[i].time_base
                    &&& res@[o].avg_frame_rate == self.inputs()[i].avg_frame_rate
                    &&& res@[o].r_frame_rate == self.inputs()[i].rate
                    &&& res@[o].codec_tag == 0
                    &&& (res@[o].params == ParamSource::Encoder <==> self.inputs()[i].kind
                        == MediaKind::Video)
                },
    {
        proof {
            use_type_invariant(self);
            lemma_plan_fields(self.inputs@);
        }
        &self.outputs
    }

    /// Number of input streams.
    pub fn input_count(&self) -> (res: usize)
        ensures
            res == self.inputs().len(),
            res <= i32::MAX,
    {
        proof {
            use_type_invariant(self);
        }
        self.inputs.len()
    }

    /// The output stream fed by input stream `input`, if it is carried.
    pub fn output_of(&self, input: usize) -> (res: Option<usize>)
        requires
            input < self.inputs().len(),
        ensures
            res == if is_carried(self.inputs()[input as int].kind) {
                Some(output_index(self.inputs(), input as int) as usize)
            } else {
                None::<usize>
            },
    {
        proof {
            use_type_invariant(self);
            lemma_count_bounded(self.inputs@.take(input as int));
        }
        let entry = self.index_list[input];
        if entry < 0 {
            None
        } else {
            Some(entry as usize)
        }
    }

    /// Where a packet demuxed from input stream `stream` goes: video is
    /// re-encoded, audio and subtitles are copied to their output stream,
    /// everything else is dropped.
    pub fn route(&self, stream: usize) -> (res: PacketRoute)
        requires
            stream < self.inputs().len(),
        ensures
            res == packet_route(self.inputs(), stream as int),
            self.inputs()[stream as int].kind == MediaKind::Video ==> res == (PacketRoute::Transcode {
                output: self.indices()[stream as int] as usize,
            }),
            self.inputs()[stream as int].kind == MediaKind::Audio || self.inputs()[stream as int].kind
                == MediaKind::Subtitle ==> res == (PacketRoute::Copy {
                output: self.indices()[stream as int] as usize,
            }),
            !(self.inputs()[stream as int].kind == MediaKind::Video || self.inputs()[stream as int].kind
                == MediaKind::Audio || self.inputs()[stream as int].kind == MediaKind::Subtitle) ==> res
                == PacketRoute::Skip,
            !(res is Skip) ==> 0 <= self.indices()[stream as int] < self.output_streams().len()
                && self.output_streams()[self.indices()[stream as int] as int].input == stream,
    {
        proof {
            use_type_invariant(self);
            lemma_count_bounded(self.inputs@.take(stream as int));
            lemma_plan_fields(self.inputs@);
            lemma_index_list_shape(self.inputs@, stream as int);
            assert(stream_index_list(self.inputs@)[stream as int] == self.index_list@[stream as int]);
        }
        let kind = self.inputs[stream].kind;
        match kind {
            MediaKind::Video => {
                let entry = self.index_list[stream];
                PacketRoute::Transcode { output: entry as usize }
            },
            MediaKind::Audio | MediaKind::Subtitle => {
                let entry = self.index_list[stream];
                if entry < 0 {
                    PacketRoute::Skip
                } else {
                    PacketRoute::Copy { output: entry as usize }
                }
            },
            _ => PacketRoute::Skip,
        }
    }
}

/// Plans the output streams for the given input streams: every video, audio
/// and subtitle stream gets an output stream, numbered in input order; the
/// video stream takes its parameters from the encoder, the others copy theirs
/// from the input; time base and frame rates are copied and the codec tag is
/// cleared.
pub fn plan_output_streams(inputs: Vec<InputStream>) -> (plan: StreamPlan)
    requires
        inputs.len() <= i32::MAX,
    ensures
        plan.inputs() == inputs@,
        plan.indices().len() == inputs.len(),
        forall|o: int|
            #![trigger plan.output_streams()[o]]
            0 <= o < plan.output_streams().len() ==> {
                let out = plan.output_streams()[o];
                let i = out.input as int;
                &&& 0 <= i < inputs.len()
                &&& (inputs[i].kind == MediaKind::Video || inputs[i].kind == MediaKind::Audio
                    || inputs[i].kind == MediaKind::Subtitle)
                &&& plan.indices()[i] == o
                &&& out.time_base == inputs[i].time_base
                &&& out.avg_frame_rate == inputs[i].avg_frame_rate
                &&& out.r_frame_rate == inputs[i].rate
                &&& out.codec_tag == 0
                &&& (out.params == ParamSource::Encoder <==> inputs[i].kind == MediaKind::Video)
            },
        forall|i: int|
            #![trigger plan.indices()[i]]
            0 <= i < inputs.len() ==> if inputs[i].kind == MediaKind::Video || inputs[i].kind
                == MediaKind::Audio || inputs[i].kind == MediaKind::Subtitle {
                &&& 0 <= plan.indices()[i] < plan.output_streams().len()
                &&& plan.output_streams()[plan.indices()[i] as int].input == i
            } else {
                plan.indices()[i] == -1
            },
        forall|i: int, j: int|
            #![trigger plan.indices()[i], plan.indices()[j]]
            0 <= i < j < inputs.len() && (inputs[i].kind == MediaKind::Video || inputs[i].kind
                == MediaKind::Audio || inputs[i].kind == MediaKind::Subtitle) && (inputs[j].kind
                == MediaKind::Video || inputs[j].kind == MediaKind::Audio || inputs[j].kind
                == MediaKind::Subtitle) ==> plan.indices()[i] < plan.indices()[j],
{
    let n = inputs.len();
    let mut index_list: Vec<i32> = Vec::new();
    let mut outputs: Vec<OutputStream> = Vec::new();
    let mut next: i32 = 0;
    let mut i: usize = 0;
    while i < n
        invariant
            n == inputs.len(),
            n <= i32::MAX,
            i <= n,
            index_list.len() == i,
            forall|j: int| 0 <= j < i ==> index_list@[j] == #[trigger] stream_index_list(inputs@)[j],
            outputs@ == planned_outputs(inputs@.take(i as int)),
            next == carried_count(inputs@.take(i as int)),
        decreases n - i,
    {
        let s = inputs[i];
        proof {
            lemma_count_bounded(inputs@.take(i as int));
            lemma_count_step(inputs@, i as int);
            let t = inputs@.take(i as int + 1);
            assert(t.drop_last() =~= inputs@.take(i as int));
            assert(t.last() == s);
        }
        if carries(s.kind) {
            let params = match s.kind {
                MediaKind::Video => ParamSource::Encoder,
                _ => ParamSource::Input,
            };
            index_list.push(next);
            outputs.push(
                OutputStream {
                    input: i,
                    params,
                    codec_tag: 0,
                    time_base: s.time_base,
                    avg_frame_rate: s.avg_frame_rate,
                    r_frame_rate: s.rate,
                },
            );
            next = next + 1;
        } else {
            index_list.push(-1);
        }
        i = i + 1;
    }
    proof {
        assert(inputs@.take(n as int) =~= inputs@);
        assert(index_list@ =~= stream_index_list(inputs@));
        lemma_plan_fields(inputs@);
    }
    StreamPlan { inputs, index_list, outputs }
}

} // verus!
