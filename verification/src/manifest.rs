//! Playlist planning: the variant ladder entries of a master playlist and
//! the segment list of a rendition playlist, computed from storage
//! answers. Rendering these models into playlist text is a collaborator's
//! job; what is computed here is everything the text must say.

use vstd::prelude::*;

use crate::storage::{StorageContainer, StorageError};
use crate::strnum::{
    all_digits, append_str, append_u64, dec_digits, digits_val, parse_u32, str_all_digits,
};
use crate::variants::{spec_variant, spec_variant_count, variant_at, variant_count,
    SEGMENT_DURATION};

verus! {

/// The index of the first `.` in `s`, or `-1` when there is none.
pub open spec fn first_dot(s: Seq<char>) -> int
    decreases s.len(),
{
    if s.len() == 0 {
        -1
    } else if s.first() == '.' {
        0
    } else if first_dot(s.drop_first()) == -1 {
        -1
    } else {
        first_dot(s.drop_first()) + 1
    }
}

/// The characters before the first dot; all of `s` when there is none.
pub open spec fn duration_int_part(s: Seq<char>) -> Seq<char> {
    if first_dot(s) == -1 {
        s
    } else {
        s.take(first_dot(s))
    }
}

/// The characters after the first dot; empty when there is none.
pub open spec fn duration_frac_part(s: Seq<char>) -> Seq<char> {
    if first_dot(s) == -1 {
        Seq::empty()
    } else {
        s.skip(first_dot(s) + 1)
    }
}

/// Whether `s` is a decimal duration: digits, optionally followed by a
/// dot and further digits.
pub open spec fn is_duration_text(s: Seq<char>) -> bool {
    &&& duration_int_part(s).len() > 0
    &&& all_digits(duration_int_part(s))
    &&& all_digits(duration_frac_part(s))
}

/// The whole seconds a duration text denotes, rounding down.
pub open spec fn spec_duration_floor(s: Seq<char>) -> nat {
    digits_val(duration_int_part(s))
}

proof fn lemma_first_dot_at(s: Seq<char>, i: int)
    requires
        0 <= i < s.len(),
        s[i] == '.',
        forall|j: int| 0 <= j < i ==> s[j] != '.',
    ensures
        first_dot(s) == i,
    decreases s.len(),
{
    if i > 0 {
        assert(forall|j: int| 0 <= j < s.len() - 1 ==> s.drop_first()[j] == s[j + 1]);
        lemma_first_dot_at(s.drop_first(), i - 1);
    }
}

proof fn lemma_first_dot_none(s: Seq<char>)
    requires
        forall|j: int| 0 <= j < s.len() ==> s[j] != '.',
    ensures
        first_dot(s) == -1,
    decreases s.len(),
{
    if s.len() > 0 {
        assert(forall|j: int| 0 <= j < s.len() - 1 ==> s.drop_first()[j] == s[j + 1]);
        lemma_first_dot_none(s.drop_first());
    }
}

/// Parses stored duration metadata — a decimal number of seconds such as
/// `23.0` — into whole seconds, rounding down. `None` exactly when the
/// text is not such a number or the value does not fit.
pub fn duration_whole_seconds(s: &str) -> (r: Option<u32>)
    ensures
        r is Some <==> is_duration_text(s@) && spec_duration_floor(s@) <= u32::MAX,
        r matches Some(v) ==> v == spec_duration_floor(s@),
{
    let n = s.unicode_len();
    let mut i: usize = 0;
    while i < n
        invariant
            n == s@.len(),
            0 <= i <= n,
            forall|j: int| 0 <= j < i ==> s@[j] != '.',
        decreases n - i,
    {
        if s.get_char(i) == '.' {
            proof {
                lemma_first_dot_at(s@, i as int);
            }
            let int_part = s.substring_char(0, i);
            let frac_part = s.substring_char(i + 1, n);
            if !str_all_digits(frac_part) {
                return None;
            }
            return parse_u32(int_part);
        }
        i += 1;
    }
    proof {
        lemma_first_dot_none(s@);
    }
    parse_u32(s)
}

/// What serde_json's document model yields for a metadata text: the
/// decimal text of its numeric `format.duration` field, or `None` when
/// the text is not a JSON document carrying one.
pub uninterp spec fn json_duration_field(s: Seq<char>) -> Option<Seq<char>>;

/// Relies on `serde_json::from_str` and `Value::get`: parses the stored
/// ffprobe-style metadata document and hands back the text of its
/// numeric `format.duration` field; any other document yields `None`.
#[verifier::external_body]
fn metadata_duration_text(s: &str) -> (r: Option<String>)
    ensures
        (r is Some) == (json_duration_field(s@) is Some),
        r matches Some(t) ==> json_duration_field(s@) == Some(t@),
{
    let value: serde_json::Value = match serde_json::from_str(s) {
        Ok(v) => v,
        Err(_) => return None,
    };
    match value.get("format").and_then(|f| f.get("duration")) {
        Some(serde_json::Value::Number(n)) => Some(n.to_string()),
        _ => None,
    }
}

/// Whether a metadata document carries a duration this system can use: a
/// numeric `format.duration` field whose text is a plain decimal and
/// whose whole seconds fit.
pub open spec fn metadata_duration_ok(md: Seq<char>) -> bool {
    match json_duration_field(md) {
        Option::Some(t) => is_duration_text(t) && spec_duration_floor(t) <= u32::MAX,
        Option::None => false,
    }
}

/// The whole seconds a metadata document's `format.duration` denotes.
pub open spec fn metadata_duration_floor(md: Seq<char>) -> nat {
    match json_duration_field(md) {
        Option::Some(t) => spec_duration_floor(t),
        Option::None => 0,
    }
}

/// The whole seconds of media a stored metadata document describes: the
/// numeric `format.duration` field, rounded down. `None` exactly when
/// the text is not a JSON document with such a field, the field's text
/// is not a plain decimal, or the value does not fit.
pub fn metadata_duration(md: &str) -> (r: Option<u32>)
    ensures
        r is Some <==> metadata_duration_ok(md@),
        r matches Some(d) ==> d == metadata_duration_floor(md@),
{
    match metadata_duration_text(md) {
        Some(text) => duration_whole_seconds(text.as_str()),
        None => None,
    }
}

/// How many whole segments a media duration covers.
pub fn num_segments(duration_secs: u32) -> (n: u32)
    ensures
        n == duration_secs as nat / SEGMENT_DURATION as nat,
{
    duration_secs / SEGMENT_DURATION
}

/// One entry of a master playlist: the rendition playlist it points at
/// and the stream parameters of that ladder rung.
#[derive(Debug, Clone, PartialEq, Eq)]
pub struct VariantEntry {
    pub uri: String,
    pub bandwidth: u64,
    pub width: usize,
    pub height: usize,
}

/// The URI a master playlist entry points at:
/// `{stem}/level{L}.m3u8`.
pub open spec fn spec_level_playlist_uri(stem: Seq<char>, level: nat) -> Seq<char> {
    stem + "/level"@ + dec_digits(level) + ".m3u8"@
}

/// The URI of one segment inside a rendition playlist:
/// `level{L}/segment{S}.ts`.
pub open spec fn spec_media_segment_uri(level: nat, segment: nat) -> Seq<char> {
    "level"@ + dec_digits(level) + "/segment"@ + dec_digits(segment) + ".ts"@
}

/// The master playlist entries for a video stem: one per ladder rung,
/// each pointing at its rendition playlist and carrying that rung's
/// stream parameters.
pub fn variant_playlist_entries(stem: &str) -> (r: Vec<VariantEntry>)
    ensures
        r@.len() == spec_variant_count(),
        forall|i: int|
            0 <= i < r@.len() ==> (#[trigger] r@[i]).uri@ == spec_level_playlist_uri(
                stem@,
                i as nat,
            ),
        forall|i: int|
            0 <= i < r@.len() ==> (#[trigger] r@[i]).bandwidth == spec_variant(i).bandwidth
                && r@[i].width == spec_variant(i).width && r@[i].height == spec_variant(i).height,
{
    let total = variant_count();
    let mut entries: Vec<VariantEntry> = Vec::new();
    let mut i: u32 = 0;
    while i < total as u32
        invariant
            total == spec_variant_count(),
            0 <= i <= total,
            entries@.len() == i,
            forall|j: int|
                0 <= j < i ==> (#[trigger] entries@[j]).uri@ == spec_level_playlist_uri(
                    stem@,
                    j as nat,
                ),
            forall|j: int|
                0 <= j < i ==> (#[trigger] entries@[j]).bandwidth == spec_variant(j).bandwidth
                    && entries@[j].width == spec_variant(j).width && entries@[j].height
                    == spec_variant(j).height,
        decreases total - i,
    {
        let v = variant_at(i);
        let mut uri = stem.to_owned();
        append_str(&mut uri, "/level");
        append_u64(&mut uri, i as u64);
        append_str(&mut uri, ".m3u8");
        entries.push(VariantEntry { uri, bandwidth: v.bandwidth, width: v.width, height: v.height });
        i += 1;
    }
    entries
}

/// The URI of one segment inside a rendition playlist.
pub fn media_segment_uri(level: u32, segment: u32) -> (r: String)
    ensures
        r@ == spec_media_segment_uri(level as nat, segment as nat),
{
    let mut uri = "level".to_owned();
    append_u64(&mut uri, level as u64);
    append_str(&mut uri, "/segment");
    append_u64(&mut uri, segment as u64);
    append_str(&mut uri, ".ts");
    uri
}

/// The rendition playlist's segment URIs for `count` segments.
pub fn media_playlist_uris(level: u32, count: u32) -> (r: Vec<String>)
    ensures
        r@.len() == count,
        forall|j: int|
            0 <= j < r@.len() ==> (#[trigger] r@[j])@ == spec_media_segment_uri(
                level as nat,
                j as nat,
            ),
{
    let mut uris: Vec<String> = Vec::new();
    let mut i: u32 = 0;
    while i < count
        invariant
            0 <= i <= count,
            uris@.len() == i,
            forall|j: int|
                0 <= j < i ==> (#[trigger] uris@[j])@ == spec_media_segment_uri(
                    level as nat,
                    j as nat,
                ),
        decreases count - i,
    {
        let uri = media_segment_uri(level, i);
        uris.push(uri);
        i += 1;
    }
    uris
}

/// Serves playlist models over one video's storage container.
pub struct ManifestServer<C: StorageContainer> {
    storage: C,
}

impl<C: StorageContainer> ManifestServer<C> {
    /// The container's own consistency, carried through.
    pub closed spec fn inv(&self) -> bool {
        self.storage.inv()
    }

    /// The committed blobs visible through this server.
    pub closed spec fn spec_entries(&self) -> Map<Seq<char>, Seq<u8>> {
        self.storage.spec_entries()
    }

    /// The metadata visible through this server.
    pub closed spec fn spec_metadata(&self) -> Map<Seq<char>, Seq<char>> {
        self.storage.spec_metadata()
    }

    /// Wraps a storage container.
    pub fn new(storage: C) -> (r: ManifestServer<C>)
        ensures
            r.inv() == storage.inv(),
            r.spec_entries() == storage.spec_entries(),
            r.spec_metadata() == storage.spec_metadata(),
    {
        ManifestServer { storage }
    }

    /// The master playlist model for `video` (a name ending in `.m3u8`):
    /// not-found when the video itself is not in storage, else one entry
    /// per ladder rung, each pointing at its rendition playlist and
    /// carrying that rung's bandwidth and resolution.
    pub fn get_variant_playlist(&self, video: &str) -> (r: Result<Vec<VariantEntry>, StorageError>)
        requires
            self.inv(),
            crate::strnum::has_suffix(video@, ".m3u8"@),
        ensures
            r is Ok <==> self.spec_entries().contains_key(video@.take(video@.len() - 5)),
            r matches Ok(v) ==> {
                let stem = video@.take(video@.len() - 5);
                &&& v@.len() == spec_variant_count()
                &&& forall|i: int|
                    0 <= i < v@.len() ==> (#[trigger] v@[i]).uri@ == spec_level_playlist_uri(
                        stem,
                        i as nat,
                    )
                &&& forall|i: int|
                    0 <= i < v@.len() ==> (#[trigger] v@[i]).bandwidth == spec_variant(i).bandwidth
                        && v@[i].width == spec_variant(i).width && v@[i].height == spec_variant(
                        i,
                    ).height
            },
            r is Err ==> r == Err::<Vec<VariantEntry>, StorageError>(StorageError::NotFound),
    {
        proof {
            reveal_strlit(".m3u8");
        }
        let n = video.unicode_len();
        let file_name = video.substring_char(0, n - 5);
        if !self.storage.blob_exists(file_name) {
            return Err(StorageError::NotFound);
        }
        Ok(variant_playlist_entries(file_name))
    }

    /// The rendition playlist model for `video` at `level`: the segment
    /// URIs `level{L}/segment{0..N}.ts`, where `N` is the duration from
    /// the stored metadata document divided by the segment duration,
    /// rounding down. Not-found when no metadata is stored; a document
    /// without a usable `format.duration` is reported as an `Other`
    /// failure.
    pub fn get_media_playlist(&self, video: &str, level: u32) -> (r: Result<
        Vec<String>,
        StorageError,
    >)
        requires
            self.inv(),
        ensures
            r is Ok <==> self.spec_metadata().contains_key(video@) && metadata_duration_ok(
                self.spec_metadata()[video@],
            ),
            r matches Ok(v) ==> {
                let count = metadata_duration_floor(self.spec_metadata()[video@])
                    / SEGMENT_DURATION as nat;
                &&& v@.len() == count
                &&& forall|j: int|
                    0 <= j < v@.len() ==> (#[trigger] v@[j])@ == spec_media_segment_uri(
                        level as nat,
                        j as nat,
                    )
            },
            !self.spec_metadata().contains_key(video@) ==> r == Err::<Vec<String>, StorageError>(
                StorageError::NotFound,
            ),
    {
        let duration = match self.get_media_duration(video) {
            Ok(d) => d,
            Err(e) => {
                return Err(e);
            },
        };
        let count = num_segments(duration);
        Ok(media_playlist_uris(level, count))
    }

    /// The stored duration of `video` in whole seconds: the numeric
    /// `format.duration` field of its metadata document, rounded down.
    fn get_media_duration(&self, video: &str) -> (r: Result<u32, StorageError>)
        requires
            self.inv(),
        ensures
            r is Ok <==> self.spec_metadata().contains_key(video@) && metadata_duration_ok(
                self.spec_metadata()[video@],
            ),
            r matches Ok(d) ==> d == metadata_duration_floor(self.spec_metadata()[video@]),
            !self.spec_metadata().contains_key(video@) ==> r == Err::<u32, StorageError>(
                StorageError::NotFound,
            ),
    {
        let metadata = match self.storage.get_metadata(video) {
            Ok(m) => m,
            Err(e) => {
                return Err(e);
            },
        };
        match metadata_duration(metadata.as_str()) {
            Some(d) => Ok(d),
            None => Err(StorageError::Other("invalid duration metadata".to_owned())),
        }
    }
}

} // verus!
