//! Request routing: parsing the path pieces of playlist and segment
//! requests, the deterministic blob path of a segment, and the cache-hit
//! versus cache-miss decision, including the rule that any internal
//! failure collapses into a plain not-found response.

use vstd::prelude::*;

use crate::config::{AppConfig, JobConfig};
use crate::dispatch::{
    build_job_descriptor, registry_after, spec_job_args, spec_job_image, spec_job_name,
    submission_result, JobDescriptor, JobRegistry,
};
use crate::relay::{PipeRelay, SinkModel};
use crate::storage::StorageContainer;
use crate::strnum::{
    all_digits, append_str, append_u64, dec_digits, digits_val, has_prefix, has_suffix, parse_u32,
    str_has_prefix, str_has_suffix,
};
use crate::variants::{spec_variant_count, SEGMENT_DURATION};

verus! {

/// The digits enclosed between a prefix and a suffix.
pub open spec fn wrapped_digits(s: Seq<char>, pre: Seq<char>, suf: Seq<char>) -> Seq<char> {
    s.subrange(pre.len() as int, s.len() - suf.len())
}

/// Whether `s` is `pre`, then at least one digit, then `suf`.
pub open spec fn is_wrapped_number(s: Seq<char>, pre: Seq<char>, suf: Seq<char>) -> bool {
    &&& s.len() > pre.len() + suf.len()
    &&& has_prefix(s, pre)
    &&& has_suffix(s, suf)
    &&& all_digits(wrapped_digits(s, pre, suf))
}

/// Parses `s` as `pre`, digits, `suf`, yielding the digits' value; `None`
/// exactly when the shape is wrong or the value does not fit.
pub fn parse_wrapped_number(s: &str, pre: &str, suf: &str) -> (r: Option<u32>)
    ensures
        r is Some <==> is_wrapped_number(s@, pre@, suf@) && digits_val(
            wrapped_digits(s@, pre@, suf@),
        ) <= u32::MAX,
        r matches Some(v) ==> v == digits_val(wrapped_digits(s@, pre@, suf@)),
{
    if !str_has_prefix(s, pre) {
        return None;
    }
    if !str_has_suffix(s, suf) {
        return None;
    }
    let sn = s.unicode_len();
    let pn = pre.unicode_len();
    let fln = suf.unicode_len();
    if sn - pn <= fln {
        return None;
    }
    let mid = s.substring_char(pn, sn - fln);
    parse_u32(mid)
}

/// Parses a rendition-playlist file name, `level{L}.m3u8`.
pub fn parse_level_playlist_name(s: &str) -> (r: Option<u32>)
    ensures
        r is Some <==> is_wrapped_number(s@, "level"@, ".m3u8"@) && digits_val(
            wrapped_digits(s@, "level"@, ".m3u8"@),
        ) <= u32::MAX,
        r matches Some(v) ==> v == digits_val(wrapped_digits(s@, "level"@, ".m3u8"@)),
{
    parse_wrapped_number(s, "level", ".m3u8")
}

/// Parses the level component of a segment path, `level{L}`.
pub fn parse_level_component(s: &str) -> (r: Option<u32>)
    ensures
        r is Some <==> is_wrapped_number(s@, "level"@, ""@) && digits_val(
            wrapped_digits(s@, "level"@, ""@),
        ) <= u32::MAX,
        r matches Some(v) ==> v == digits_val(wrapped_digits(s@, "level"@, ""@)),
{
    parse_wrapped_number(s, "level", "")
}

/// Parses a segment file name, `segment{S}.ts`.
pub fn parse_segment_file_name(s: &str) -> (r: Option<u32>)
    ensures
        r is Some <==> is_wrapped_number(s@, "segment"@, ".ts"@) && digits_val(
            wrapped_digits(s@, "segment"@, ".ts"@),
        ) <= u32::MAX,
        r matches Some(v) ==> v == digits_val(wrapped_digits(s@, "segment"@, ".ts"@)),
{
    parse_wrapped_number(s, "segment", ".ts")
}

/// The index of the last `.` in `s`, or `-1` when there is none.
pub open spec fn last_dot(s: Seq<char>) -> int
    decreases s.len(),
{
    if s.len() == 0 {
        -1
    } else if s.last() == '.' {
        s.len() - 1
    } else {
        last_dot(s.drop_last())
    }
}

/// The file stem of a video name: everything before the final dot, the
/// whole name when there is no dot, and the whole name when the only dot
/// leads it.
pub open spec fn spec_stem(s: Seq<char>) -> Seq<char> {
    if last_dot(s) <= 0 {
        s
    } else {
        s.take(last_dot(s))
    }
}

proof fn lemma_last_dot_at(s: Seq<char>, i: int)
    requires
        0 <= i < s.len(),
        s[i] == '.',
        forall|j: int| i < j < s.len() ==> s[j] != '.',
    ensures
        last_dot(s) == i,
    decreases s.len(),
{
    if i == s.len() - 1 {
    } else {
        assert(forall|j: int| 0 <= j < s.len() - 1 ==> s[j] == s.drop_last()[j]);
        lemma_last_dot_at(s.drop_last(), i);
    }
}

proof fn lemma_no_dot(s: Seq<char>)
    requires
        forall|j: int| 0 <= j < s.len() ==> s[j] != '.',
    ensures
        last_dot(s) == -1,
    decreases s.len(),
{
    if s.len() > 0 {
        assert(forall|j: int| 0 <= j < s.len() - 1 ==> s[j] == s.drop_last()[j]);
        lemma_no_dot(s.drop_last());
    }
}

/// The stem of a video name, dropping the extension if one is present.
pub fn video_stem(video: &str) -> (r: String)
    ensures
        r@ == spec_stem(video@),
{
    let n = video.unicode_len();
    let mut i: usize = n;
    while i > 0
        invariant
            n == video@.len(),
            0 <= i <= n,
            forall|j: int| i <= j < n ==> video@[j] != '.',
        decreases i,
    {
        i -= 1;
        if video.get_char(i) == '.' {
            proof {
                lemma_last_dot_at(video@, i as int);
            }
            if i == 0 {
                return video.to_owned();
            }
            return crate::strnum::str_between(video, 0, i);
        }
    }
    proof {
        lemma_no_dot(video@);
    }
    video.to_owned()
}

/// The deterministic storage path of one segment:
/// `/{stem}/level{L}/segment{S}.ts`.
pub open spec fn spec_segment_blob_path(stem: Seq<char>, level: nat, segment: nat) -> Seq<char> {
    "/"@ + stem + "/level"@ + dec_digits(level) + "/segment"@ + dec_digits(segment) + ".ts"@
}

/// Builds the deterministic storage path of one segment.
pub fn segment_blob_path(stem: &str, level: u32, segment: u32) -> (r: String)
    ensures
        r@ == spec_segment_blob_path(stem@, level as nat, segment as nat),
{
    let mut s = "/".to_owned();
    append_str(&mut s, stem);
    append_str(&mut s, "/level");
    append_u64(&mut s, level as u64);
    append_str(&mut s, "/segment");
    append_u64(&mut s, segment as u64);
    append_str(&mut s, ".ts");
    s
}

/// How a segment request is to be served.
#[derive(Debug, Clone, Copy, PartialEq, Eq, Structural)]
pub enum SegmentPlan {
    /// The blob is already committed: stream it from storage.
    ServeFromStorage,
    /// The video itself does not exist: respond not-found and dispatch
    /// nothing.
    RejectNotFound,
    /// Dispatch a job with a pre-allocated relay handle and stream its
    /// bytes live.
    DispatchLive,
    /// Dispatch a job writing to storage, wait (bounded) for completion,
    /// then fetch from storage.
    DispatchAndWait,
}

/// Decides how to serve a segment request from what storage reported and
/// the delivery configuration: a committed blob is served directly; a
/// missing video is refused with no job dispatched; otherwise a job is
/// dispatched, live-streamed exactly when stream-while-encoding is on and
/// encode-ahead is off.
pub fn plan_segment_request(segment_exists: bool, video_exists: bool, config: &AppConfig) -> (p:
    SegmentPlan)
    ensures
        segment_exists ==> p == SegmentPlan::ServeFromStorage,
        !segment_exists && !video_exists ==> p == SegmentPlan::RejectNotFound,
        !segment_exists && video_exists && config.stream_while_encoding && !config.encode_ahead
            ==> p == SegmentPlan::DispatchLive,
        !segment_exists && video_exists && !(config.stream_while_encoding
            && !config.encode_ahead) ==> p == SegmentPlan::DispatchAndWait,
{
    if segment_exists {
        SegmentPlan::ServeFromStorage
    } else if !video_exists {
        SegmentPlan::RejectNotFound
    } else if config.stream_while_encoding && !config.encode_ahead {
        SegmentPlan::DispatchLive
    } else {
        SegmentPlan::DispatchAndWait
    }
}

/// What one segment request produced, run against the library's model
/// backends.
pub enum SegmentOutcome {
    /// Cache hit: the committed segment bytes, served directly.
    Stored(Vec<u8>),
    /// Cache miss, live delivery: the relay handle allocated before
    /// dispatch, and the job that was submitted, whose output address
    /// carries that handle.
    Live(u64, JobDescriptor),
    /// Cache miss, storage delivery: the job that was submitted; the
    /// caller waits (bounded) and re-fetches from storage.
    Waiting(JobDescriptor),
    /// The video does not exist, or submission failed: a plain
    /// not-found, with nothing dispatched beyond the recorded attempt.
    NotFound,
}

/// One full segment request against a storage container and the model
/// scheduler: a committed blob is served as-is and nothing else moves; a
/// request for a missing video touches neither the scheduler nor the
/// relay; otherwise a deterministically named job is recorded with
/// create-if-absent semantics — a second identical request leaves
/// exactly the same record — and, under live delivery, a fresh relay
/// handle is allocated before dispatch and embedded in the job's output
/// address.
pub fn serve_segment<C: StorageContainer>(
    storage: &C,
    registry: &mut JobRegistry,
    relay: &mut PipeRelay,
    config: &AppConfig,
    job_config: &JobConfig,
    input_url: &str,
    video: &str,
    level: u32,
    segment: u32,
) -> (r: SegmentOutcome)
    requires
        storage.inv(),
        old(relay).wf(),
        old(relay).spec_can_allocate(),
        level < spec_variant_count(),
        segment * SEGMENT_DURATION <= u32::MAX,
    ensures
        final(relay).wf(),
        ({
            let stem = spec_stem(video@);
            let path = spec_segment_blob_path(stem, level as nat, segment as nat);
            let hit = storage.spec_entries().contains_key(path);
            let video_exists = storage.spec_entries().contains_key(stem);
            let name = spec_job_name(*config, video@, level as nat, segment as nat);
            &&& hit ==> (r matches SegmentOutcome::Stored(b)
                && b@ == storage.spec_entries()[path] && final(registry)@ == old(registry)@
                && final(relay)@ == old(relay)@)
            &&& !hit && !video_exists ==> (r is NotFound && final(registry)@ == old(registry)@
                && final(relay)@ == old(relay)@)
            &&& !hit && video_exists && (config.encode_ahead || config.cache_fragments)
                ==> final(registry)@ == registry_after(old(registry)@, name)
            &&& !hit && video_exists && config.stream_while_encoding && !config.encode_ahead
                ==> (r matches SegmentOutcome::Live(h, d) && h == old(relay).spec_next_handle()
                && !old(relay)@.contains_key(h) && final(relay)@ == old(relay)@.insert(
                h,
                SinkModel { queue: Seq::empty(), closed: false },
            ) && d.args.deep_view() == spec_job_args(
                *config,
                input_url@,
                level as nat,
                segment as nat,
                Some(h),
            ) && d.image@ == spec_job_image(*config, *job_config) && ((config.encode_ahead
                || config.cache_fragments) ==> d.name@ == name) && ((!config.encode_ahead
                && !config.cache_fragments) ==> d.name@.len() == 36))
            &&& !hit && video_exists && !(config.stream_while_encoding && !config.encode_ahead)
                ==> (r matches SegmentOutcome::Waiting(d) && final(relay)@ == old(relay)@
                && d.args.deep_view() == spec_job_args(
                *config,
                input_url@,
                level as nat,
                segment as nat,
                None,
            ) && d.image@ == spec_job_image(*config, *job_config) && ((config.encode_ahead
                || config.cache_fragments) ==> d.name@ == name) && ((!config.encode_ahead
                && !config.cache_fragments) ==> d.name@.len() == 36))
        }),
{
    let stem = video_stem(video);
    let path = segment_blob_path(stem.as_str(), level, segment);
    let segment_exists = storage.blob_exists(path.as_str());
    let video_exists = storage.blob_exists(stem.as_str());
    let plan = plan_segment_request(segment_exists, video_exists, config);
    match plan {
        SegmentPlan::ServeFromStorage => {
            match storage.get_content(path.as_str()) {
                Ok(bytes) => SegmentOutcome::Stored(bytes),
                Err(_) => SegmentOutcome::NotFound,
            }
        },
        SegmentPlan::RejectNotFound => SegmentOutcome::NotFound,
        SegmentPlan::DispatchLive => {
            let handle = relay.allocate();
            let descriptor = build_job_descriptor(
                config,
                job_config,
                input_url,
                video,
                level,
                segment,
                Some(handle),
            );
            let outcome = registry.create(descriptor.name.as_str());
            match submission_result(outcome) {
                Ok(_) => SegmentOutcome::Live(handle, descriptor),
                Err(_) => SegmentOutcome::NotFound,
            }
        },
        SegmentPlan::DispatchAndWait => {
            let descriptor = build_job_descriptor(
                config,
                job_config,
                input_url,
                video,
                level,
                segment,
                None,
            );
            let outcome = registry.create(descriptor.name.as_str());
            match submission_result(outcome) {
                Ok(_) => SegmentOutcome::Waiting(descriptor),
                Err(_) => SegmentOutcome::NotFound,
            }
        },
    }
}

/// The HTTP status the router reports: success is 200; every internal
/// failure — missing artifact, auth, transport, dispatch, timeout —
/// collapses into one plain 404, so callers cannot distinguish "never
/// existed" from "backend trouble".
pub fn response_status(success: bool) -> (code: u16)
    ensures
        success ==> code == 200,
        !success ==> code == 404,
{
    if success {
        200
    } else {
        404
    }
}

} // verus!
