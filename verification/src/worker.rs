//! The worker job's orchestration plan: the codec's exact command line,
//! the upload fan-out lists, the completion-order handling of upload
//! results, and the rule that joins the three concurrent stages into one
//! job outcome.

use vstd::prelude::*;

use crate::pipeline::{spec_join, PackagerFiles, PackagerStream, Preset};
use crate::strnum::{append_str, append_u64, dec_digits};

verus! {

/// The codec options and output path of one video rendition: no audio
/// track, the preset's video codec, size and bitrate, fixed frame rate
/// and keyframe interval, and fragmented output suited to piping.
pub open spec fn spec_video_output_args(
    codec: Seq<char>,
    v: crate::pipeline::Video,
    path: Seq<char>,
) -> Seq<Seq<char>> {
    seq![
        "-an"@,
        "-c:v"@,
        codec,
        "-s"@,
        v.size@,
        "-b:v"@,
        v.bitrate@,
        "-r"@,
        "30"@,
        "-g"@,
        "60"@,
        "-movflags"@,
        "cmaf+delay_moov+skip_trailer+skip_sidx+frag_keyframe"@,
        path,
    ]
}

/// The codec options and output path of one audio rendition: no video
/// track, the preset's audio codec and bitrate, fragmented output.
pub open spec fn spec_audio_output_args(
    codec: Seq<char>,
    a: crate::pipeline::Audio,
    path: Seq<char>,
) -> Seq<Seq<char>> {
    seq![
        "-vn"@,
        "-c:a"@,
        codec,
        "-b:a"@,
        a.bitrate@,
        "-movflags"@,
        "cmaf+delay_moov+skip_trailer+skip_sidx"@,
        "-frag_duration"@,
        "2"@,
        path,
    ]
}

/// The first `k` video output blocks, in order.
pub open spec fn spec_video_blocks(p: Preset, outs: Seq<PackagerStream>, k: int) -> Seq<Seq<char>>
    decreases k,
{
    if k <= 0 {
        Seq::empty()
    } else {
        spec_video_blocks(p, outs, k - 1) + spec_video_output_args(
            p.video_codec@,
            p.videos@[k - 1],
            outs[k - 1].input@,
        )
    }
}

/// The first `k` audio output blocks, which follow the video blocks.
pub open spec fn spec_audio_blocks(p: Preset, outs: Seq<PackagerStream>, k: int) -> Seq<Seq<char>>
    decreases k,
{
    if k <= 0 {
        Seq::empty()
    } else {
        spec_audio_blocks(p, outs, k - 1) + spec_audio_output_args(
            p.audio_codec@,
            p.audios@[k - 1],
            outs[p.videos@.len() + k - 1].input@,
        )
    }
}

/// The codec's full argument vector: overwrite flag, the input, then one
/// output block per rendition — each writing into its stream's pipe —
/// videos first.
pub open spec fn spec_encoder_args(p: Preset, input: Seq<char>, outs: Seq<PackagerStream>) -> Seq<
    Seq<char>,
> {
    seq!["-y"@, "-i"@, input] + spec_video_blocks(p, outs, p.videos@.len() as int)
        + spec_audio_blocks(p, outs, p.audios@.len() as int)
}

/// Drives the external codec process over one preset.
#[derive(Debug, Clone, PartialEq, Eq)]
pub struct Encoder {
    pub preset: Preset,
}

impl Encoder {
    /// An encoder invocation for one preset.
    pub fn create(preset: Preset) -> (r: Encoder)
        ensures
            r.preset == preset,
    {
        Encoder { preset }
    }

    /// The exact argument vector of the codec process: one output per
    /// rendition of the preset, writing into the matching stream's input
    /// pipe.
    pub fn command_args(&self, input: &str, outputs: &Vec<PackagerStream>) -> (r: Vec<String>)
        requires
            outputs@.len() >= self.preset.videos@.len() + self.preset.audios@.len(),
        ensures
            r.deep_view() == spec_encoder_args(self.preset, input@, outputs@),
    {
        let mut args: Vec<String> = Vec::new();
        push_str_arg(&mut args, "-y");
        push_str_arg(&mut args, "-i");
        push_str_arg(&mut args, input);
        let ghost head = seq!["-y"@, "-i"@, input@];
        proof {
            assert(args.deep_view() =~= head);
        }
        let videos = self.preset.videos.len();
        let on = outputs.len();
        let mut i: usize = 0;
        while i < videos
            invariant
                videos == self.preset.videos@.len(),
                on == outputs@.len(),
                outputs@.len() >= self.preset.videos@.len() + self.preset.audios@.len(),
                0 <= i <= videos,
                head == seq!["-y"@, "-i"@, input@],
                args.deep_view() =~= head + spec_video_blocks(self.preset, outputs@, i as int),
            decreases videos - i,
        {
            let v = &self.preset.videos[i];
            push_str_arg(&mut args, "-an");
            push_str_arg(&mut args, "-c:v");
            push_string_arg(&mut args, self.preset.video_codec.clone());
            push_str_arg(&mut args, "-s");
            push_string_arg(&mut args, v.size.clone());
            push_str_arg(&mut args, "-b:v");
            push_string_arg(&mut args, v.bitrate.clone());
            push_str_arg(&mut args, "-r");
            push_str_arg(&mut args, "30");
            push_str_arg(&mut args, "-g");
            push_str_arg(&mut args, "60");
            push_str_arg(&mut args, "-movflags");
            push_str_arg(&mut args, "cmaf+delay_moov+skip_trailer+skip_sidx+frag_keyframe");
            push_string_arg(&mut args, outputs[i].input.clone());
            proof {
                assert(args.deep_view() =~~= head + spec_video_blocks(
                    self.preset,
                    outputs@,
                    i + 1,
                ));
            }
            i += 1;
        }
        let audios = self.preset.audios.len();
        let mut k: usize = 0;
        while k < audios
            invariant
                videos == self.preset.videos@.len(),
                audios == self.preset.audios@.len(),
                on == outputs@.len(),
                outputs@.len() >= self.preset.videos@.len() + self.preset.audios@.len(),
                0 <= k <= audios,
                head == seq!["-y"@, "-i"@, input@],
                args.deep_view() =~= head + spec_video_blocks(
                    self.preset,
                    outputs@,
                    videos as int,
                ) + spec_audio_blocks(self.preset, outputs@, k as int),
            decreases audios - k,
        {
            let a = &self.preset.audios[k];
            push_str_arg(&mut args, "-vn");
            push_str_arg(&mut args, "-c:a");
            push_string_arg(&mut args, self.preset.audio_codec.clone());
            push_str_arg(&mut args, "-b:a");
            push_string_arg(&mut args, a.bitrate.clone());
            push_str_arg(&mut args, "-movflags");
            push_str_arg(&mut args, "cmaf+delay_moov+skip_trailer+skip_sidx");
            push_str_arg(&mut args, "-frag_duration");
            push_str_arg(&mut args, "2");
            push_string_arg(&mut args, outputs[videos + k].input.clone());
            proof {
                assert(args.deep_view() =~~= head + spec_video_blocks(
                    self.preset,
                    outputs@,
                    videos as int,
                ) + spec_audio_blocks(self.preset, outputs@, k + 1));
            }
            k += 1;
        }
        args
    }
}

fn push_str_arg(args: &mut Vec<String>, s: &str)
    ensures
        final(args).deep_view() == old(args).deep_view().push(s@),
{
    args.push(s.to_owned());
    proof {
        assert(args.deep_view() =~= old(args).deep_view().push(s@));
    }
}

fn push_string_arg(args: &mut Vec<String>, s: String)
    ensures
        final(args).deep_view() == old(args).deep_view().push(s@),
{
    args.push(s);
    proof {
        assert(args.deep_view() =~= old(args).deep_view().push(s@));
    }
}

/// The temporary pipe paths the codec writes and the packager reads, one
/// per rendition, under the working directory.
pub fn input_pipe_paths(dir: &str, total: usize) -> (r: Vec<String>)
    ensures
        r.deep_view().len() == total,
        forall|i: int|
            0 <= i < total ==> (#[trigger] r.deep_view()[i]) == spec_join(
                dir@,
                "_input_"@ + dec_digits(i as nat) + ".mp4"@,
            ),
{
    let mut out: Vec<String> = Vec::new();
    let mut i: usize = 0;
    while i < total
        invariant
            0 <= i <= total,
            out.deep_view().len() == i,
            forall|j: int|
                0 <= j < i ==> (#[trigger] out.deep_view()[j]) == spec_join(
                    dir@,
                    "_input_"@ + dec_digits(j as nat) + ".mp4"@,
                ),
        decreases total - i,
    {
        let mut name = "_input_".to_owned();
        append_u64(&mut name, i as u64);
        append_str(&mut name, ".mp4");
        let path = crate::pipeline::join_path(dir, name.as_str());
        push_string_arg(&mut out, path);
        i += 1;
    }
    out
}

/// The packaged rendition outputs to upload, in stream order; their
/// uploads run concurrently and are observed in completion order.
pub fn media_upload_paths(files: &PackagerFiles) -> (r: Vec<String>)
    ensures
        r.deep_view() == Seq::new(files.streams@.len(), |i: int| files.streams@[i].output@),
{
    let n = files.streams.len();
    let mut out: Vec<String> = Vec::new();
    let mut i: usize = 0;
    while i < n
        invariant
            n == files.streams@.len(),
            0 <= i <= n,
            out.deep_view() =~= Seq::new(i as nat, |j: int| files.streams@[j].output@),
        decreases n - i,
    {
        push_string_arg(&mut out, files.streams[i].output.clone());
        proof {
            assert(out.deep_view() =~= Seq::new((i + 1) as nat, |j: int| files.streams@[
                j
            ].output@));
        }
        i += 1;
    }
    out
}

/// The manifest artifacts to upload after the renditions: each stream's
/// rendition playlist, then the two top-level manifests.
pub fn manifest_upload_paths(files: &PackagerFiles) -> (r: Vec<String>)
    ensures
        r.deep_view() == Seq::new(files.streams@.len(), |i: int| files.streams@[i].manifest@)
            + seq![files.manifest.output@, files.manifest.manifest@],
{
    let n = files.streams.len();
    let mut out: Vec<String> = Vec::new();
    let mut i: usize = 0;
    while i < n
        invariant
            n == files.streams@.len(),
            0 <= i <= n,
            out.deep_view() =~= Seq::new(i as nat, |j: int| files.streams@[j].manifest@),
        decreases n - i,
    {
        push_string_arg(&mut out, files.streams[i].manifest.clone());
        proof {
            assert(out.deep_view() =~= Seq::new((i + 1) as nat, |j: int| files.streams@[
                j
            ].manifest@));
        }
        i += 1;
    }
    push_string_arg(&mut out, files.manifest.output.clone());
    push_string_arg(&mut out, files.manifest.manifest.clone());
    proof {
        assert(out.deep_view() =~~= Seq::new(files.streams@.len(), |i: int| files.streams@[
            i
        ].manifest@) + seq![files.manifest.output@, files.manifest.manifest@]);
    }
    out
}

/// Picks the upload fan-out's result from the per-upload results in the
/// order they completed: success only when every upload succeeded, else
/// the earliest-observed failure.
pub fn first_upload_error(results: &Vec<Result<(), String>>) -> (r: Result<(), String>)
    ensures
        r is Ok <==> (forall|i: int| 0 <= i < results@.len() ==> (#[trigger] results@[i]) is Ok),
        r matches Err(m) ==> exists|i: int|
            0 <= i < results@.len() && (#[trigger] results@[i]) is Err && (forall|j: int|
                0 <= j < i ==> results@[j] is Ok) && m@ == results@[i]->Err_0@,
{
    let n = results.len();
    let mut i: usize = 0;
    while i < n
        invariant
            n == results@.len(),
            0 <= i <= n,
            forall|j: int| 0 <= j < i ==> (#[trigger] results@[j]) is Ok,
        decreases n - i,
    {
        match &results[i] {
            Ok(_) => {},
            Err(m) => {
                return Err(m.clone());
            },
        }
        i += 1;
    }
    Ok(())
}

/// Which pipeline stage failed.
#[derive(Debug, Clone, Copy, PartialEq, Eq, Structural)]
pub enum PipelineStage {
    Encoder,
    Packager,
    Uploader,
}

/// One stage's failure, surfaced as the job's result.
#[derive(Debug, Clone, PartialEq, Eq)]
pub struct PipelineFailure {
    pub stage: PipelineStage,
    pub message: String,
}

/// Joins the three concurrently driven stages into the job's outcome.
/// All three results are in hand before deciding — every stage has been
/// awaited, so nothing is left running — and when several failed, the
/// upstream-most failure is surfaced: an encoder failure is the root
/// cause of whatever broke downstream of its pipes, so the job reports
/// the encoder's error even while the packager and uploader were
/// mid-flight.
pub fn join_pipeline(
    encoder: Result<(), String>,
    packager: Result<(), String>,
    uploader: Result<(), String>,
) -> (r: Result<(), PipelineFailure>)
    ensures
        r is Ok <==> encoder is Ok && packager is Ok && uploader is Ok,
        encoder matches Err(m) ==> (r matches Err(f) && f.stage == PipelineStage::Encoder
            && f.message == m),
        encoder is Ok ==> (packager matches Err(m) ==> (r matches Err(f) && f.stage
            == PipelineStage::Packager && f.message == m)),
        encoder is Ok && packager is Ok ==> (uploader matches Err(m) ==> (r matches Err(f)
            && f.stage == PipelineStage::Uploader && f.message == m)),
{
    match encoder {
        Err(m) => Err(PipelineFailure { stage: PipelineStage::Encoder, message: m }),
        Ok(()) => match packager {
            Err(m) => Err(PipelineFailure { stage: PipelineStage::Packager, message: m }),
            Ok(()) => match uploader {
                Err(m) => Err(PipelineFailure { stage: PipelineStage::Uploader, message: m }),
                Ok(()) => Ok(()),
            },
        },
    }
}

} // verus!
