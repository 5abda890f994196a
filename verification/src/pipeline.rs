//! The worker-side transcode pipeline plan: encoding presets, the
//! per-rendition stream files handed between the codec and the packager,
//! the exact argument vectors of both external processes, the upload
//! fan-out lists, and the join rule that combines the three concurrent
//! stages' outcomes.
//!
//! The processes themselves run outside the library; everything they are
//! told to do is computed and pinned down here.

use vstd::prelude::*;

use crate::router::{spec_stem, video_stem};
use crate::strnum::{append_str, append_u64, dec_digits};

verus! {

/// The index of the last `/` in `s`, or `-1` when there is none.
pub open spec fn last_sep(s: Seq<char>) -> int
    decreases s.len(),
{
    if s.len() == 0 {
        -1
    } else if s.last() == '/' {
        s.len() - 1
    } else {
        last_sep(s.drop_last())
    }
}

proof fn lemma_last_sep_at(s: Seq<char>, i: int)
    requires
        0 <= i < s.len(),
        s[i] == '/',
        forall|j: int| i < j < s.len() ==> s[j] != '/',
    ensures
        last_sep(s) == i,
    decreases s.len(),
{
    if i < s.len() - 1 {
        assert(forall|j: int| 0 <= j < s.len() - 1 ==> s[j] == s.drop_last()[j]);
        lemma_last_sep_at(s.drop_last(), i);
    }
}

proof fn lemma_no_sep(s: Seq<char>)
    requires
        forall|j: int| 0 <= j < s.len() ==> s[j] != '/',
    ensures
        last_sep(s) == -1,
    decreases s.len(),
{
    if s.len() > 0 {
        assert(forall|j: int| 0 <= j < s.len() - 1 ==> s[j] == s.drop_last()[j]);
        lemma_no_sep(s.drop_last());
    }
}

/// Joining a directory and a name: an absolute name stands alone, and a
/// single separator goes between the parts otherwise.
pub open spec fn spec_join(dir: Seq<char>, name: Seq<char>) -> Seq<char> {
    if name.len() > 0 && name.first() == '/' {
        name
    } else if dir.len() == 0 {
        name
    } else if dir.last() == '/' {
        dir + name
    } else {
        dir + "/"@ + name
    }
}

/// Joins a directory and a name.
pub fn join_path(dir: &str, name: &str) -> (r: String)
    ensures
        r@ == spec_join(dir@, name@),
{
    let nn = name.unicode_len();
    if nn > 0 && name.get_char(0) == '/' {
        return name.to_owned();
    }
    let dn = dir.unicode_len();
    if dn == 0 {
        return name.to_owned();
    }
    if dir.get_char(dn - 1) == '/' {
        let mut s = dir.to_owned();
        append_str(&mut s, name);
        return s;
    }
    let mut s = dir.to_owned();
    append_str(&mut s, "/");
    append_str(&mut s, name);
    s
}

/// The path with its file name's extension replaced by `ext`: the stem of
/// the part after the last separator, a dot, then `ext`.
pub open spec fn spec_with_extension(p: Seq<char>, ext: Seq<char>) -> Seq<char> {
    p.take(last_sep(p) + 1) + spec_stem(p.skip(last_sep(p) + 1)) + "."@ + ext
}

/// Replaces the extension of the file-name part of `p` with `ext`.
pub fn with_extension(p: &str, ext: &str) -> (r: String)
    ensures
        r@ == spec_with_extension(p@, ext@),
{
    let n = p.unicode_len();
    let mut i: usize = n;
    while i > 0
        invariant
            n == p@.len(),
            0 <= i <= n,
            forall|j: int| i <= j < n ==> p@[j] != '/',
        decreases i,
    {
        i -= 1;
        if p.get_char(i) == '/' {
            proof {
                lemma_last_sep_at(p@, i as int);
            }
            let file = p.substring_char(i + 1, n);
            let stem = video_stem(file);
            let mut s = crate::strnum::str_between(p, 0, i + 1);
            append_str(&mut s, stem.as_str());
            append_str(&mut s, ".");
            append_str(&mut s, ext);
            return s;
        }
    }
    proof {
        lemma_no_sep(p@);
        assert(p@.take(0) =~= Seq::<char>::empty());
        assert(p@.skip(0) =~= p@);
    }
    let stem = video_stem(p);
    let mut s = stem;
    append_str(&mut s, ".");
    append_str(&mut s, ext);
    proof {
        assert(Seq::<char>::empty() + spec_stem(p@) =~= spec_stem(p@));
    }
    s
}

/// One target video rendition of the codec.
#[derive(Debug, Clone, PartialEq, Eq)]
pub struct Video {
    pub width: i32,
    pub height: i32,
    pub bitrate: String,
    pub size: String,
}

/// One target audio rendition of the codec.
#[derive(Debug, Clone, PartialEq, Eq)]
pub struct Audio {
    pub bitrate: String,
    pub channels: String,
}

/// The codec settings of one transcode job: codecs and the rendition
/// lists, videos first.
#[derive(Debug, Clone, PartialEq, Eq)]
pub struct Preset {
    pub video_codec: String,
    pub audio_codec: String,
    pub videos: Vec<Video>,
    pub audios: Vec<Audio>,
}

/// Whether a video rendition carries exactly these parameters.
pub open spec fn video_matches(v: Video, width: int, height: int, bitrate: nat) -> bool {
    &&& v.width == width
    &&& v.height == height
    &&& v.bitrate@ == dec_digits(bitrate)
    &&& v.size@ == dec_digits(width as nat) + "x"@ + dec_digits(height as nat)
}

/// Whether an audio rendition carries exactly these parameters.
pub open spec fn audio_matches(a: Audio, bitrate: nat) -> bool {
    &&& a.bitrate@ == dec_digits(bitrate)
    &&& a.channels@ == dec_digits(2)
}

impl Video {
    /// A video rendition with its size and bitrate rendered for the
    /// codec's command line.
    pub fn create(width: i32, height: i32, bitrate: i32) -> (v: Video)
        requires
            width >= 0,
            height >= 0,
            bitrate >= 0,
        ensures
            video_matches(v, width as int, height as int, bitrate as nat),
    {
        let mut size = crate::strnum::u64_to_string(width as u64);
        append_str(&mut size, "x");
        append_u64(&mut size, height as u64);
        Video { width, height, bitrate: crate::strnum::u64_to_string(bitrate as u64), size }
    }
}

impl Audio {
    /// A stereo audio rendition with its bitrate rendered for the
    /// codec's command line.
    pub fn create(bitrate: i32) -> (a: Audio)
        requires
            bitrate >= 0,
        ensures
            audio_matches(a, bitrate as nat),
    {
        Audio {
            bitrate: crate::strnum::u64_to_string(bitrate as u64),
            channels: crate::strnum::u64_to_string(2),
        }
    }
}

impl Preset {
    /// The fixed H.264 ladder: three video renditions (720p and two
    /// 480p) and one AAC audio rendition.
    pub fn h264_720p() -> (p: Preset)
        ensures
            p.video_codec@ == "libx264"@,
            p.audio_codec@ == "aac"@,
            p.videos@.len() == 3,
            video_matches(p.videos@[0], 1200, 720, 1500000),
            video_matches(p.videos@[1], 850, 480, 750000),
            video_matches(p.videos@[2], 850, 480, 750000),
            p.audios@.len() == 1,
            audio_matches(p.audios@[0], 64000),
    {
        let mut videos: Vec<Video> = Vec::new();
        videos.push(Video::create(1200, 720, 1500000));
        videos.push(Video::create(850, 480, 750000));
        videos.push(Video::create(850, 480, 750000));
        let mut audios: Vec<Audio> = Vec::new();
        audios.push(Audio::create(64000));
        Preset {
            videos,
            audios,
            video_codec: "libx264".to_owned(),
            audio_codec: "aac".to_owned(),
        }
    }
}

/// Whether a stream carries audio or video.
#[derive(Debug, Clone, Copy, PartialEq, Eq, Structural)]
pub enum StreamType {
    Audio,
    Video,
}

impl StreamType {
    /// The name the packager's command line uses for this stream type.
    pub fn name(&self) -> (r: String)
        ensures
            *self is Audio ==> r@ == "audio"@,
            *self is Video ==> r@ == "video"@,
    {
        match self {
            StreamType::Audio => "audio".to_owned(),
            StreamType::Video => "video".to_owned(),
        }
    }
}

/// The spec-level name of a stream type.
pub open spec fn spec_stream_type_name(t: StreamType) -> Seq<char> {
    match t {
        StreamType::Audio => "audio"@,
        StreamType::Video => "video"@,
    }
}

/// One rendition's artifacts: the pipe the codec writes into, the
/// packaged output, and the rendition playlist.
#[derive(Debug, Clone, PartialEq, Eq)]
pub struct PackagerStream {
    pub input: String,
    pub output: String,
    pub manifest: String,
    pub stream_type: StreamType,
}

impl PackagerStream {
    /// A rendition's artifact paths under `dir`: the packaged output is
    /// `{name}.mp4` and its playlist `{name}.m3u8`.
    pub fn create(stream_type: StreamType, input: &str, dir: &str, name: &str) -> (s:
        PackagerStream)
        ensures
            s.stream_type == stream_type,
            s.input@ == input@,
            s.output@ == spec_with_extension(spec_join(dir@, name@), "mp4"@),
            s.manifest@ == spec_with_extension(spec_join(dir@, name@), "m3u8"@),
    {
        let joined = join_path(dir, name);
        let output = with_extension(joined.as_str(), "mp4");
        let manifest = with_extension(joined.as_str(), "m3u8");
        PackagerStream { stream_type, input: input.to_owned(), output, manifest }
    }
}

/// The full artifact set of one job: one stream per rendition plus the
/// top-level manifest pair.
#[derive(Debug, Clone, PartialEq, Eq)]
pub struct PackagerFiles {
    pub streams: Vec<PackagerStream>,
    pub manifest: PackagerStream,
}

impl PackagerFiles {
    /// Bundles the rendition streams with the top-level manifest entry.
    pub fn create(streams: Vec<PackagerStream>, manifest: PackagerStream) -> (r: PackagerFiles)
        ensures
            r.streams == streams,
            r.manifest == manifest,
    {
        PackagerFiles { streams, manifest }
    }
}

/// How the packager is invoked.
#[derive(Debug, Clone, PartialEq, Eq)]
pub struct PackagerOptions {
    pub manifest_name: String,
    pub pipes: bool,
    pub command: String,
}

/// Optional content-encryption parameters, passed through to the
/// packager untouched.
#[derive(Debug, Clone, PartialEq, Eq)]
pub struct EncryptionOptions {
    pub key_id: String,
    pub key: String,
    pub hls_key_uri: Option<String>,
}

/// The name of the stream at position `i`: video renditions first, then
/// audio, each kind counted from zero.
pub open spec fn spec_stream_name(i: nat, videos: nat) -> Seq<char> {
    if i < videos {
        "video_"@ + dec_digits(i)
    } else {
        "audio_"@ + dec_digits((i - videos) as nat)
    }
}

impl PackagerOptions {
    /// Packager invocation defaults for this target: named pipes for the
    /// rendition hand-off and the plain `packager` binary.
    pub fn create(manifest_name: String) -> (r: PackagerOptions)
        ensures
            r.manifest_name == manifest_name,
            r.pipes,
            r.command@ == "packager"@,
    {
        PackagerOptions { manifest_name, pipes: true, command: "packager".to_owned() }
    }

    /// Lays out the artifact set of one job: one stream per input pipe —
    /// video renditions first, then audio — and the top-level manifest
    /// pair, which cannot use pipes.
    pub fn get_files(&self, preset: &Preset, directory: &str, inputs: &Vec<String>) -> (r:
        PackagerFiles)
        ensures
            r.streams@.len() == inputs@.len(),
            forall|i: int|
                0 <= i < inputs@.len() ==> {
                    let name = spec_stream_name(i as nat, preset.videos@.len());
                    &&& (#[trigger] r.streams@[i]).input@ == inputs@[i]@
                    &&& r.streams@[i].stream_type == (if i < preset.videos@.len() {
                        StreamType::Video
                    } else {
                        StreamType::Audio
                    })
                    &&& r.streams@[i].output@ == spec_with_extension(
                        spec_join(directory@, name),
                        "mp4"@,
                    )
                    &&& r.streams@[i].manifest@ == spec_with_extension(
                        spec_join(directory@, name),
                        "m3u8"@,
                    )
                },
            r.manifest.stream_type == StreamType::Video,
            r.manifest.input@ == Seq::<char>::empty(),
            r.manifest.output@ == spec_join(
                directory@,
                spec_with_extension(self.manifest_name@, ".mpd"@),
            ),
            r.manifest.manifest@ == spec_join(
                directory@,
                spec_with_extension(self.manifest_name@, ".m3u8"@),
            ),
    {
        let videos = preset.videos.len();
        let total = inputs.len();
        let mut streams: Vec<PackagerStream> = Vec::new();
        let mut i: usize = 0;
        while i < total
            invariant
                total == inputs@.len(),
                videos == preset.videos@.len(),
                0 <= i <= total,
                streams@.len() == i,
                forall|j: int|
                    0 <= j < i ==> {
                        let name = spec_stream_name(j as nat, videos as nat);
                        &&& (#[trigger] streams@[j]).input@ == inputs@[j]@
                        &&& streams@[j].stream_type == (if j < videos {
                            StreamType::Video
                        } else {
                            StreamType::Audio
                        })
                        &&& streams@[j].output@ == spec_with_extension(
                            spec_join(directory@, name),
                            "mp4"@,
                        )
                        &&& streams@[j].manifest@ == spec_with_extension(
                            spec_join(directory@, name),
                            "m3u8"@,
                        )
                    },
            decreases total - i,
        {
            let is_video = i < videos;
            let mut name = if is_video {
                "video_".to_owned()
            } else {
                "audio_".to_owned()
            };
            if is_video {
                append_u64(&mut name, i as u64);
            } else {
                append_u64(&mut name, (i - videos) as u64);
            }
            let stream = PackagerStream::create(
                if is_video {
                    StreamType::Video
                } else {
                    StreamType::Audio
                },
                inputs[i].as_str(),
                directory,
                name.as_str(),
            );
            streams.push(stream);
            i += 1;
        }
        let manifest = PackagerStream {
            stream_type: StreamType::Video,
            input: String::new(),
            output: join_path(directory, with_extension(self.manifest_name.as_str(),
                ".mpd").as_str()),
            manifest: join_path(directory, with_extension(self.manifest_name.as_str(),
                ".m3u8").as_str()),
        };
        PackagerFiles::create(streams, manifest)
    }
}

/// The packager's per-stream descriptor argument:
/// `stream={type},in={pipe},format=mp4,out={output},playlist_name={playlist}`.
pub open spec fn spec_stream_arg(s: PackagerStream) -> Seq<char> {
    "stream="@ + spec_stream_type_name(s.stream_type) + ",in="@ + s.input@ + ",format=mp4,out="@
        + s.output@ + ",playlist_name="@ + s.manifest@
}

/// The packager's encryption arguments, when encryption is wanted.
pub open spec fn spec_encryption_args(o: EncryptionOptions) -> Seq<Seq<char>> {
    let keys = "label=cenc:key_id="@ + o.key_id@ + ":key="@ + o.key@;
    let head = seq![
        "--enable_raw_key_encryption"@,
        "--protection_scheme"@,
        "cbcs"@,
        "--keys"@,
        keys,
        "--clear_lead"@,
        "0"@,
    ];
    match o.hls_key_uri {
        Option::Some(uri) => head + seq!["--hls_key_uri"@, uri@],
        Option::None => head,
    }
}

/// The packager's full argument vector: one stream descriptor per
/// rendition, the optional encryption arguments, then the top-level
/// manifest outputs.
pub open spec fn spec_packager_args(
    files: PackagerFiles,
    options: Option<EncryptionOptions>,
) -> Seq<Seq<char>> {
    let streams = Seq::new(files.streams@.len(), |i: int| spec_stream_arg(files.streams@[i]));
    let enc = match options {
        Option::Some(o) => spec_encryption_args(o),
        Option::None => Seq::<Seq<char>>::empty(),
    };
    let tail = seq![
        "--vmodule=*=1"@,
        "--mpd_output"@,
        files.manifest.output@,
        "--hls_master_playlist_output"@,
        files.manifest.manifest@,
    ];
    streams + enc + tail
}

/// Runs the external segmenting/packaging process over the artifact set.
#[derive(Debug, Clone, PartialEq, Eq)]
pub struct Packager {
    pub options: PackagerOptions,
}

impl Packager {
    /// A packager invocation with the given options.
    pub fn new(options: PackagerOptions) -> (r: Packager)
        ensures
            r.options == options,
    {
        Packager { options }
    }

    /// The command the invocation runs.
    pub fn command(&self) -> (r: String)
        ensures
            r@ == self.options.command@,
    {
        self.options.command.clone()
    }

    /// The exact argument vector of the packager process for this
    /// artifact set, encryption parameters passed through untouched.
    pub fn args(&self, files: &PackagerFiles, options: &Option<EncryptionOptions>) -> (r: Vec<
        String,
    >)
        ensures
            r.deep_view() == spec_packager_args(*files, *options),
    {
        let mut args: Vec<String> = Vec::new();
        let n = files.streams.len();
        let mut i: usize = 0;
        while i < n
            invariant
                n == files.streams@.len(),
                0 <= i <= n,
                args.deep_view() =~= Seq::new(i as nat, |j: int| spec_stream_arg(
                    files.streams@[j],
                )),
            decreases n - i,
        {
            let s = &files.streams[i];
            let mut a = "stream=".to_owned();
            let tn = s.stream_type.name();
            append_str(&mut a, tn.as_str());
            append_str(&mut a, ",in=");
            append_str(&mut a, s.input.as_str());
            append_str(&mut a, ",format=mp4,out=");
            append_str(&mut a, s.output.as_str());
            append_str(&mut a, ",playlist_name=");
            append_str(&mut a, s.manifest.as_str());
            proof {
                assert(a@ =~= spec_stream_arg(files.streams@[i as int]));
            }
            push_string_arg(&mut args, a);
            proof {
                assert(args.deep_view() =~= Seq::new((i + 1) as nat, |j: int| spec_stream_arg(
                    files.streams@[j],
                )));
            }
            i += 1;
        }
        match options {
            Option::Some(o) => {
                push_str_arg(&mut args, "--enable_raw_key_encryption");
                push_str_arg(&mut args, "--protection_scheme");
                push_str_arg(&mut args, "cbcs");
                push_str_arg(&mut args, "--keys");
                let mut keys = "label=cenc:key_id=".to_owned();
                append_str(&mut keys, o.key_id.as_str());
                append_str(&mut keys, ":key=");
                append_str(&mut keys, o.key.as_str());
                push_string_arg(&mut args, keys);
                push_str_arg(&mut args, "--clear_lead");
                push_str_arg(&mut args, "0");
                match &o.hls_key_uri {
                    Option::Some(uri) => {
                        push_str_arg(&mut args, "--hls_key_uri");
                        push_string_arg(&mut args, uri.clone());
                    },
                    Option::None => {},
                }
            },
            Option::None => {},
        }
        push_str_arg(&mut args, "--vmodule=*=1");
        push_str_arg(&mut args, "--mpd_output");
        push_string_arg(&mut args, files.manifest.output.clone());
        push_str_arg(&mut args, "--hls_master_playlist_output");
        push_string_arg(&mut args, files.manifest.manifest.clone());
        proof {
            assert(args.deep_view() =~~= spec_packager_args(*files, *options));
        }
        args
    }
}

fn push_str_arg(args: &mut Vec<String>, s: &str)
    ensures
        final(args).deep_view() == old(args).deep_view().push(s@),
{
    args.push(s.to_owned());
    proof {
        assert(args.deep_view() =~= old(args).deep_view().push(s@));
    }
}

fn push_string_arg(args: &mut Vec<String>, s: String)
    ensures
        final(args).deep_view() == old(args).deep_view().push(s@),
{
    args.push(s);
    proof {
        assert(args.deep_view() =~= old(args).deep_view().push(s@));
    }
}

} // verus!
