//! The job dispatcher: deterministic job names, the job descriptor handed
//! to the cluster scheduler, and the create-if-absent submission semantics
//! that collapse concurrent duplicate requests into one job.

use vstd::prelude::*;

use crate::config::{AppConfig, JobConfig};
use crate::strnum::{append_str, append_u64, dec_digits};
use crate::variants::{spec_variant, spec_variant_count, variant_at, SEGMENT_DURATION};

verus! {

/// The lowercase form of an ASCII letter; other characters are unchanged.
pub open spec fn lower_char(c: char) -> char {
    if c == 'A' {
        'a'
    } else if c == 'B' {
        'b'
    } else if c == 'C' {
        'c'
    } else if c == 'D' {
        'd'
    } else if c == 'E' {
        'e'
    } else if c == 'F' {
        'f'
    } else if c == 'G' {
        'g'
    } else if c == 'H' {
        'h'
    } else if c == 'I' {
        'i'
    } else if c == 'J' {
        'j'
    } else if c == 'K' {
        'k'
    } else if c == 'L' {
        'l'
    } else if c == 'M' {
        'm'
    } else if c == 'N' {
        'n'
    } else if c == 'O' {
        'o'
    } else if c == 'P' {
        'p'
    } else if c == 'Q' {
        'q'
    } else if c == 'R' {
        'r'
    } else if c == 'S' {
        's'
    } else if c == 'T' {
        't'
    } else if c == 'U' {
        'u'
    } else if c == 'V' {
        'v'
    } else if c == 'W' {
        'w'
    } else if c == 'X' {
        'x'
    } else if c == 'Y' {
        'y'
    } else if c == 'Z' {
        'z'
    } else {
        c
    }
}

/// Job-name folding of one character: underscores become hyphens and
/// ASCII letters are lowercased. The folding is deliberately ASCII-only:
/// job names serve as DNS labels, whose alphabet is lowercase ASCII
/// letters, digits and hyphens, so that is the alphabet the folding
/// targets; characters outside it pass through unchanged.
pub open spec fn fold_char(c: char) -> char {
    if c == '_' {
        '-'
    } else {
        lower_char(c)
    }
}

/// Job-name folding of a whole character sequence, pointwise.
pub open spec fn fold_chars(s: Seq<char>) -> Seq<char> {
    Seq::new(s.len(), |i: int| fold_char(s[i]))
}

fn fold_char_exec(c: char) -> (r: char)
    ensures
        r == fold_char(c),
{
    match c {
        '_' => '-',
        'A' => 'a',
        'B' => 'b',
        'C' => 'c',
        'D' => 'd',
        'E' => 'e',
        'F' => 'f',
        'G' => 'g',
        'H' => 'h',
        'I' => 'i',
        'J' => 'j',
        'K' => 'k',
        'L' => 'l',
        'M' => 'm',
        'N' => 'n',
        'O' => 'o',
        'P' => 'p',
        'Q' => 'q',
        'R' => 'r',
        'S' => 's',
        'T' => 't',
        'U' => 'u',
        'V' => 'v',
        'W' => 'w',
        'X' => 'x',
        'Y' => 'y',
        'Z' => 'z',
        _ => c,
    }
}

/// Applies the job-name folding to every character of `s`.
pub fn fold_name(s: &str) -> (r: String)
    ensures
        r@ == fold_chars(s@),
{
    let n = s.unicode_len();
    let mut out = String::new();
    let mut i: usize = 0;
    while i < n
        invariant
            n == s@.len(),
            0 <= i <= n,
            out@ == fold_chars(s@.take(i as int)),
        decreases n - i,
    {
        let c = s.get_char(i);
        let fc = fold_char_exec(c);
        out.push(fc);
        proof {
            assert(out@ =~= fold_chars(s@.take(i + 1)));
        }
        i += 1;
    }
    proof {
        assert(s@.take(n as int) =~= s@);
    }
    out
}

/// The job name under the encode-ahead policy: one job per rendition,
/// no segment component.
pub open spec fn spec_level_job_name(video: Seq<char>, level: nat) -> Seq<char> {
    fold_chars(video) + "-l"@ + dec_digits(level)
}

/// The job name under the cache-fragments policy: one job per exact
/// segment.
pub open spec fn spec_segment_job_name(video: Seq<char>, level: nat, segment: nat) -> Seq<char> {
    fold_chars(video) + "-l"@ + dec_digits(level) + "-s"@ + dec_digits(segment)
}

/// The job name under whichever deterministic caching policy `c` selects.
/// Meaningful only when one of the two deterministic policies is active.
pub open spec fn spec_job_name(c: AppConfig, video: Seq<char>, level: nat, segment: nat) -> Seq<
    char,
> {
    if c.encode_ahead {
        spec_level_job_name(video, level)
    } else {
        spec_segment_job_name(video, level, segment)
    }
}

/// Relies on `uuid::Uuid::new_v4` and `Hyphenated::encode_lower`: a
/// freshly generated v4 UUID rendered in hyphenated lowercase form, which
/// is 36 characters long. The value is random; nothing more is assumed.
#[verifier::external_body]
fn fresh_job_token() -> (r: String)
    ensures
        r@.len() == 36,
{
    let id = uuid::Uuid::new_v4();
    let mut buf = uuid::Uuid::encode_buffer();
    id.hyphenated().encode_lower(&mut buf).to_owned()
}

/// Computes the scheduler idempotency key for one unit of work, under the
/// caching policy that `config` selects: per-rendition under encode-ahead,
/// per-segment under cache-fragments, and a fresh unique token when
/// caching is off (no deduplication, by design).
pub fn job_name(config: &AppConfig, video: &str, level: u32, segment: u32) -> (r: String)
    ensures
        config.encode_ahead || config.cache_fragments ==> r@ == spec_job_name(
            *config,
            video@,
            level as nat,
            segment as nat,
        ),
        !config.encode_ahead && !config.cache_fragments ==> r@.len() == 36,
{
    if config.encode_ahead {
        let mut s = fold_name(video);
        append_str(&mut s, "-l");
        append_u64(&mut s, level as u64);
        s
    } else if config.cache_fragments {
        let mut s = fold_name(video);
        append_str(&mut s, "-l");
        append_u64(&mut s, level as u64);
        append_str(&mut s, "-s");
        append_u64(&mut s, segment as u64);
        s
    } else {
        fresh_job_token()
    }
}

/// Job-name computation is a pure function of its inputs and the active
/// caching policy: equal inputs give equal names, and under encode-ahead
/// the segment index does not enter the name at all.
pub proof fn lemma_job_name_deterministic(
    c: AppConfig,
    video: Seq<char>,
    level: nat,
    seg1: nat,
    seg2: nat,
    r1: Seq<char>,
    r2: Seq<char>,
)
    requires
        r1 == spec_job_name(c, video, level, seg1),
        r2 == spec_job_name(c, video, level, seg2),
    ensures
        c.encode_ahead ==> r1 == r2,
        seg1 == seg2 ==> r1 == r2,
{
}

/// What the cluster scheduler reported for one submission.
#[derive(Debug, Clone, PartialEq, Eq)]
pub enum SubmitOutcome {
    /// The job was created; this request is the one doing the work.
    Created,
    /// A job with this name already exists: another request is already
    /// producing the same artifact.
    AlreadyExists,
    /// Submission failed for some other reason.
    Failed(String),
}

/// A job submission failure that is reported to the caller.
#[derive(Debug, Clone, PartialEq, Eq)]
pub struct DispatchError {
    pub message: String,
}

/// Collapses a submission outcome into the caller's result: a name
/// conflict means someone else is already doing this work and is treated
/// exactly like success; any other failure is reported.
pub fn submission_result(outcome: SubmitOutcome) -> (r: Result<(), DispatchError>)
    ensures
        r is Ok <==> !(outcome is Failed),
        outcome matches SubmitOutcome::Failed(m) ==> r matches Err(e) && e.message == m,
{
    match outcome {
        SubmitOutcome::Created => Ok(()),
        SubmitOutcome::AlreadyExists => Ok(()),
        SubmitOutcome::Failed(m) => Err(DispatchError { message: m }),
    }
}

/// Whether a name is among the recorded jobs.
pub open spec fn registry_contains(r: Seq<Seq<char>>, n: Seq<char>) -> bool {
    exists|i: int| 0 <= i < r.len() && r[i] == n
}

/// The registry after a create-if-absent submission of `n`.
pub open spec fn registry_after(r: Seq<Seq<char>>, n: Seq<char>) -> Seq<Seq<char>> {
    if registry_contains(r, n) {
        r
    } else {
        r.push(n)
    }
}

/// How many job records carry the name `n`.
pub open spec fn registry_count(r: Seq<Seq<char>>, n: Seq<char>) -> nat
    decreases r.len(),
{
    if r.len() == 0 {
        0
    } else {
        registry_count(r.drop_last(), n) + if r.last() == n {
            1nat
        } else {
            0nat
        }
    }
}

proof fn lemma_count_absent(r: Seq<Seq<char>>, n: Seq<char>)
    requires
        !registry_contains(r, n),
    ensures
        registry_count(r, n) == 0,
    decreases r.len(),
{
    if r.len() > 0 {
        assert(forall|i: int| 0 <= i < r.len() - 1 ==> r.drop_last()[i] == r[i]);
        lemma_count_absent(r.drop_last(), n);
    }
}

/// The scheduler's create-if-absent semantics on job names, the only
/// cross-request coordination in the system. This is the model that
/// submissions are judged against; the library also executes it directly
/// as a stand-in scheduler.
pub struct JobRegistry {
    names: Vec<String>,
}

impl JobRegistry {
    /// The recorded job names, in creation order.
    pub closed spec fn view(&self) -> Seq<Seq<char>> {
        self.names.deep_view()
    }

    /// An empty registry.
    pub fn new() -> (r: JobRegistry)
        ensures
            r@ == Seq::<Seq<char>>::empty(),
    {
        JobRegistry { names: Vec::new() }
    }

    /// How many job records exist.
    pub fn count(&self) -> (n: usize)
        ensures
            n == self@.len(),
    {
        self.names.len()
    }

    /// Submits a job under `name` with create-if-absent semantics: a new
    /// record is added exactly when no record with that name exists, and
    /// the outcome says which case held.
    pub fn create(&mut self, name: &str) -> (outcome: SubmitOutcome)
        ensures
            final(self)@ == registry_after(old(self)@, name@),
            outcome is AlreadyExists <==> registry_contains(old(self)@, name@),
            !(outcome is Failed),
    {
        let n = self.names.len();
        let mut i: usize = 0;
        while i < n
            invariant
                n == self.names.len(),
                0 <= i <= n,
                forall|j: int| 0 <= j < i ==> self@[j] != name@,
            decreases n - i,
        {
            if crate::strnum::str_eq(self.names[i].as_str(), name) {
                assert(self@[i as int] == name@);
                return SubmitOutcome::AlreadyExists;
            }
            i += 1;
        }
        assert(!registry_contains(self@, name@));
        self.names.push(name.to_owned());
        proof {
            assert(self@ =~= old(self)@.push(name@));
        }
        SubmitOutcome::Created
    }
}

/// Idempotency of dispatch under a deterministic naming policy: after one
/// submission of a name, the registry holds exactly one record of it, and
/// a second submission of the same name observes the conflict and changes
/// nothing — two concurrent requests collapse into one job execution.
pub proof fn lemma_dispatch_idempotent(r: Seq<Seq<char>>, n: Seq<char>)
    requires
        !registry_contains(r, n),
    ensures
        registry_count(registry_after(r, n), n) == 1,
        registry_contains(registry_after(r, n), n),
        registry_after(registry_after(r, n), n) == registry_after(r, n),
{
    lemma_count_absent(r, n);
    let r1 = registry_after(r, n);
    assert(r1 == r.push(n));
    assert(r1.drop_last() =~= r);
    assert(r1.last() == n);
    assert(r1[r.len() as int] == n);
}

/// Live delivery is wanted exactly when stream-while-encoding is enabled
/// and encode-ahead is not: an encode-ahead job produces many segments
/// and cannot be attached to a single live sink.
pub fn wants_live_stream(config: &AppConfig) -> (r: bool)
    ensures
        r == (config.stream_while_encoding && !config.encode_ahead),
{
    config.stream_while_encoding && !config.encode_ahead
}

/// One unit of transcode work, ready for submission to the cluster
/// scheduler under `name` as the idempotency key.
#[derive(Debug, Clone, PartialEq, Eq)]
pub struct JobDescriptor {
    pub name: String,
    pub image: String,
    pub args: Vec<String>,
}

/// The container image for a job: the GPU variant when GPU encoding is
/// configured, prefixed by the registry.
pub open spec fn spec_job_image(c: AppConfig, j: JobConfig) -> Seq<char> {
    j.registry_name@ + if c.use_gpu {
        j.gpu_image_name@
    } else {
        j.image_name@
    }
}

/// The job's output destination: the relay endpoint of this pod when a
/// live handle was allocated, else a segment-template path under the
/// signed storage URL.
pub open spec fn spec_job_output(
    c: AppConfig,
    url: Seq<char>,
    level: nat,
    handle: Option<u64>,
) -> Seq<char> {
    match handle {
        Option::Some(h) => "http://"@ + c.pod_address@ + "/pipe/"@ + dec_digits(h as nat),
        Option::None => url + "/level"@ + dec_digits(level) + "/segment%d.ts"@,
    }
}

/// The argument vector handed to the transcode job: input URL, output
/// destination, start offset, clip length (omitted under encode-ahead,
/// meaning "to end"), target resolution and bitrate from the ladder, and
/// the optional hardware-acceleration flag.
pub open spec fn spec_job_args(
    c: AppConfig,
    url: Seq<char>,
    level: nat,
    segment: nat,
    handle: Option<u64>,
) -> Seq<Seq<char>> {
    let v = spec_variant(level as int);
    let head = seq!["-i"@, url, "-o"@, spec_job_output(c, url, level, handle), "-t"@, dec_digits(
        segment * SEGMENT_DURATION as nat,
    )];
    let clip = if c.encode_ahead {
        Seq::<Seq<char>>::empty()
    } else {
        seq!["-d"@, dec_digits(SEGMENT_DURATION as nat)]
    };
    let shape = seq!["-s"@, dec_digits(v.width as nat) + "x"@ + dec_digits(v.height as nat), "-b"@,
        dec_digits(v.bandwidth as nat)];
    let gpu = if c.use_gpu {
        seq!["-g"@]
    } else {
        Seq::<Seq<char>>::empty()
    };
    head + clip + shape + gpu
}

fn push_owned(args: &mut Vec<String>, s: &str)
    ensures
        final(args).deep_view() == old(args).deep_view().push(s@),
{
    args.push(s.to_owned());
    proof {
        assert(args.deep_view() =~= old(args).deep_view().push(s@));
    }
}

fn push_string(args: &mut Vec<String>, s: String)
    ensures
        final(args).deep_view() == old(args).deep_view().push(s@),
{
    args.push(s);
    proof {
        assert(args.deep_view() =~= old(args).deep_view().push(s@));
    }
}

/// Builds the full job descriptor for one unit of transcode work:
/// deterministic name, configured image, and the exact argument vector of
/// `spec_job_args`. `input_url` is the signed read/write URL of the
/// source; `handle` is the pre-allocated relay handle when live delivery
/// is wanted.
pub fn build_job_descriptor(
    config: &AppConfig,
    job_config: &JobConfig,
    input_url: &str,
    video: &str,
    level: u32,
    segment: u32,
    handle: Option<u64>,
) -> (d: JobDescriptor)
    requires
        level < spec_variant_count(),
        segment * SEGMENT_DURATION <= u32::MAX,
    ensures
        config.encode_ahead || config.cache_fragments ==> d.name@ == spec_job_name(
            *config,
            video@,
            level as nat,
            segment as nat,
        ),
        !config.encode_ahead && !config.cache_fragments ==> d.name@.len() == 36,
        d.image@ == spec_job_image(*config, *job_config),
        d.args.deep_view() == spec_job_args(
            *config,
            input_url@,
            level as nat,
            segment as nat,
            handle,
        ),
{
    let name = job_name(config, video, level, segment);

    let mut image = job_config.registry_name.clone();
    if config.use_gpu {
        append_str(&mut image, job_config.gpu_image_name.as_str());
    } else {
        append_str(&mut image, job_config.image_name.as_str());
    }

    let mut args: Vec<String> = Vec::new();
    push_owned(&mut args, "-i");
    push_owned(&mut args, input_url);
    push_owned(&mut args, "-o");
    match handle {
        Option::Some(h) => {
            let mut out = "http://".to_owned();
            append_str(&mut out, config.pod_address.as_str());
            append_str(&mut out, "/pipe/");
            append_u64(&mut out, h);
            push_string(&mut args, out);
        },
        Option::None => {
            let mut out = input_url.to_owned();
            append_str(&mut out, "/level");
            append_u64(&mut out, level as u64);
            append_str(&mut out, "/segment%d.ts");
            push_string(&mut args, out);
        },
    }
    push_owned(&mut args, "-t");
    let start = segment * SEGMENT_DURATION;
    push_string(&mut args, crate::strnum::u32_to_string(start));
    if !config.encode_ahead {
        push_owned(&mut args, "-d");
        push_string(&mut args, crate::strnum::u32_to_string(SEGMENT_DURATION));
    }
    let v = variant_at(level);
    push_owned(&mut args, "-s");
    let mut shape = crate::strnum::u64_to_string(v.width as u64);
    append_str(&mut shape, "x");
    append_u64(&mut shape, v.height as u64);
    push_string(&mut args, shape);
    push_owned(&mut args, "-b");
    push_string(&mut args, crate::strnum::u64_to_string(v.bandwidth));
    if config.use_gpu {
        push_owned(&mut args, "-g");
    }
    proof {
        assert(args.deep_view() =~= spec_job_args(
            *config,
            input_url@,
            level as nat,
            segment as nat,
            handle,
        ));
    }
    JobDescriptor { name, image, args }
}

} // verus!
