use jitstream::config::{AppConfig, JobConfig};
use jitstream::dispatch::{
    build_job_descriptor, job_name, submission_result, wants_live_stream, JobRegistry,
    SubmitOutcome,
};
use jitstream::relay::{PipeRelay, ReadStep, RelayError, RELAY_QUEUE_CAPACITY};
use jitstream::storage::{MemoryContainer, StorageContainer, StorageError};
use jitstream::strnum::{parse_u32, str_eq, str_has_prefix, str_has_suffix, u32_to_string,
    u64_to_string};
use jitstream::variants::{variant_at, variant_count, Variant, SEGMENT_DURATION};

#[test]
fn it_works() {}

#[test]
fn renders_decimals() {
    assert_eq!(u64_to_string(0), "0");
    assert_eq!(u64_to_string(7), "7");
    assert_eq!(u64_to_string(10), "10");
    assert_eq!(u64_to_string(1500000), "1500000");
    assert_eq!(u32_to_string(4294967295), "4294967295");
    assert_eq!(u64_to_string(18446744073709551615), "18446744073709551615");
}

#[test]
fn parses_decimals() {
    assert_eq!(parse_u32("0"), Some(0));
    assert_eq!(parse_u32("23"), Some(23));
    assert_eq!(parse_u32("007"), Some(7));
    assert_eq!(parse_u32("4294967295"), Some(4294967295));
    assert_eq!(parse_u32("4294967296"), None);
    assert_eq!(parse_u32("00004294967295"), Some(4294967295));
    assert_eq!(parse_u32(""), None);
    assert_eq!(parse_u32("12a"), None);
    assert_eq!(parse_u32("-3"), None);
}

#[test]
fn string_predicates() {
    assert!(str_eq("abc", "abc"));
    assert!(!str_eq("abc", "abd"));
    assert!(!str_eq("abc", "ab"));
    assert!(str_has_prefix("level1.m3u8", "level"));
    assert!(!str_has_prefix("evel1.m3u8", "level"));
    assert!(str_has_suffix("level1.m3u8", ".m3u8"));
    assert!(!str_has_suffix("level1.m3u", ".m3u8"));
}

#[test]
fn config_defaults() {
    let c = AppConfig::new();
    assert_eq!(c.storage, "");
    assert_eq!(c.pod_address, "127.0.0.1");
    assert_eq!(c.node_address, "127.0.0.1");
    assert_eq!(c.storage_port, 8080);
    assert!(c.stream_while_encoding);
    assert!(!c.use_gpu);
    assert!(!c.encode_ahead);
    assert!(c.cache_fragments);

    let j = JobConfig::new();
    assert_eq!(j.registry_name, "livestream.azurecr.io/");
    assert_eq!(j.image_name, "ffmpeg");
    assert_eq!(j.gpu_image_name, "nvidia-ffmpeg");
}

#[test]
fn ladder_is_fixed() {
    assert_eq!(SEGMENT_DURATION, 5);
    assert_eq!(variant_count(), 3);
    let v0 = variant_at(0);
    assert_eq!(v0, Variant { width: 1920, height: 1080, bandwidth: 2000000 });
    let v1 = variant_at(1);
    assert_eq!(v1, Variant { width: 1200, height: 720, bandwidth: 1000000 });
    let v2 = variant_at(2);
    assert_eq!(v2, Variant { width: 848, height: 480, bandwidth: 600000 });
}

#[test]
fn job_names_are_deterministic() {
    let mut c = AppConfig::new();
    assert_eq!(job_name(&c, "Movie_1", 1, 0), "movie-1-l1-s0");
    assert_eq!(job_name(&c, "Movie_1", 1, 0), "movie-1-l1-s0");
    assert_eq!(job_name(&c, "movie", 2, 13), "movie-l2-s13");

    c.encode_ahead = true;
    assert_eq!(job_name(&c, "Movie_1", 1, 0), "movie-1-l1");
    assert_eq!(job_name(&c, "Movie_1", 1, 99), "movie-1-l1");
}

#[test]
fn no_caching_names_are_fresh() {
    let mut c = AppConfig::new();
    c.cache_fragments = false;
    let a = job_name(&c, "movie", 1, 0);
    let b = job_name(&c, "movie", 1, 0);
    assert_eq!(a.len(), 36);
    assert_eq!(b.len(), 36);
    assert_ne!(a, b);
}

#[test]
fn dispatch_collapses_duplicates() {
    let mut reg = JobRegistry::new();
    assert_eq!(reg.count(), 0);
    let first = reg.create("movie-l1-s0");
    assert_eq!(first, SubmitOutcome::Created);
    assert_eq!(reg.count(), 1);
    let second = reg.create("movie-l1-s0");
    assert_eq!(second, SubmitOutcome::AlreadyExists);
    assert_eq!(reg.count(), 1);
    let other = reg.create("movie-l1-s1");
    assert_eq!(other, SubmitOutcome::Created);
    assert_eq!(reg.count(), 2);
}

#[test]
fn submission_conflict_is_success() {
    assert!(submission_result(SubmitOutcome::Created).is_ok());
    assert!(submission_result(SubmitOutcome::AlreadyExists).is_ok());
    let failed = submission_result(SubmitOutcome::Failed("quota".to_owned()));
    assert_eq!(failed.unwrap_err().message, "quota");
}

#[test]
fn live_streaming_rule() {
    let mut c = AppConfig::new();
    assert!(wants_live_stream(&c));
    c.encode_ahead = true;
    assert!(!wants_live_stream(&c));
    c.encode_ahead = false;
    c.stream_while_encoding = false;
    assert!(!wants_live_stream(&c));
}

#[test]
fn job_descriptor_with_relay_output() {
    let c = AppConfig::new();
    let j = JobConfig::new();
    let d = build_job_descriptor(&c, &j, "https://store/movie?sig=tok", "movie", 1, 3,
        Some(5));
    assert_eq!(d.name, "movie-l1-s3");
    assert_eq!(d.image, "livestream.azurecr.io/ffmpeg");
    let expected: Vec<String> = vec![
        "-i".to_owned(),
        "https://store/movie?sig=tok".to_owned(),
        "-o".to_owned(),
        "http://127.0.0.1/pipe/5".to_owned(),
        "-t".to_owned(),
        "15".to_owned(),
        "-d".to_owned(),
        "5".to_owned(),
        "-s".to_owned(),
        "1200x720".to_owned(),
        "-b".to_owned(),
        "1000000".to_owned(),
    ];
    assert_eq!(d.args, expected);
}

#[test]
fn job_descriptor_with_storage_output() {
    let mut c = AppConfig::new();
    c.use_gpu = true;
    let j = JobConfig::new();
    let d = build_job_descriptor(&c, &j, "https://store/movie", "movie", 0, 0, None);
    assert_eq!(d.image, "livestream.azurecr.io/nvidia-ffmpeg");
    let expected: Vec<String> = vec![
        "-i".to_owned(),
        "https://store/movie".to_owned(),
        "-o".to_owned(),
        "https://store/movie/level0/segment%d.ts".to_owned(),
        "-t".to_owned(),
        "0".to_owned(),
        "-d".to_owned(),
        "5".to_owned(),
        "-s".to_owned(),
        "1920x1080".to_owned(),
        "-b".to_owned(),
        "2000000".to_owned(),
        "-g".to_owned(),
    ];
    assert_eq!(d.args, expected);
}

#[test]
fn job_descriptor_encode_ahead_has_no_clip_length() {
    let mut c = AppConfig::new();
    c.encode_ahead = true;
    let j = JobConfig::new();
    let d = build_job_descriptor(&c, &j, "https://store/movie", "movie", 2, 0, None);
    assert_eq!(d.name, "movie-l2");
    let expected: Vec<String> = vec![
        "-i".to_owned(),
        "https://store/movie".to_owned(),
        "-o".to_owned(),
        "https://store/movie/level2/segment%d.ts".to_owned(),
        "-t".to_owned(),
        "0".to_owned(),
        "-s".to_owned(),
        "848x480".to_owned(),
        "-b".to_owned(),
        "600000".to_owned(),
    ];
    assert_eq!(d.args, expected);
}

#[test]
fn relay_delivers_chunks_in_order() {
    let mut relay = PipeRelay::new();
    let h = relay.allocate();
    assert!(relay.route(h, vec![1, 2, 3]).is_ok());
    assert!(relay.route(h, vec![4]).is_ok());
    assert_eq!(relay.read(h), ReadStep::Data(vec![1, 2, 3]));
    assert!(relay.route(h, vec![5, 6]).is_ok());
    assert_eq!(relay.read(h), ReadStep::Data(vec![4]));
    assert_eq!(relay.read(h), ReadStep::Data(vec![5, 6]));
    assert_eq!(relay.read(h), ReadStep::Pending);
    assert!(relay.close(h).is_ok());
    assert_eq!(relay.read(h), ReadStep::End);
    assert_eq!(relay.read(h), ReadStep::End);
}

#[test]
fn relay_refuses_unknown_and_closed_handles() {
    let mut relay = PipeRelay::new();
    assert_eq!(relay.route(42, vec![1]), Err(RelayError::UnknownHandle));
    assert_eq!(relay.close(42), Err(RelayError::UnknownHandle));
    let h = relay.allocate();
    assert!(relay.close(h).is_ok());
    assert_eq!(relay.route(h, vec![1]), Err(RelayError::SinkClosed));
    assert_eq!(relay.close(h), Err(RelayError::SinkClosed));
    assert_eq!(jitstream::relay::relay_response_status(&Ok(())), 202);
    assert_eq!(
        jitstream::relay::relay_response_status(&Err(RelayError::SinkClosed)),
        400
    );
}

#[test]
fn relay_reports_queue_depth_for_backpressure() {
    let mut relay = PipeRelay::new();
    assert_eq!(relay.queue_depth(9), None);
    let h = relay.allocate();
    assert_eq!(relay.queue_depth(h), Some(0));
    assert!(relay.route(h, vec![1]).is_ok());
    assert!(relay.route(h, vec![2]).is_ok());
    assert_eq!(relay.queue_depth(h), Some(2));
    assert!(relay.queue_depth(h).unwrap() < RELAY_QUEUE_CAPACITY);
    assert_eq!(relay.read(h), ReadStep::Data(vec![1]));
    assert_eq!(relay.queue_depth(h), Some(1));
}

#[test]
fn relay_handles_do_not_cross_talk() {
    let mut relay = PipeRelay::new();
    let h1 = relay.allocate();
    let h2 = relay.allocate();
    assert_ne!(h1, h2);
    assert!(relay.route(h1, vec![1]).is_ok());
    assert!(relay.route(h2, vec![2]).is_ok());
    assert!(relay.close(h1).is_ok());
    assert_eq!(relay.read(h2), ReadStep::Data(vec![2]));
    assert_eq!(relay.read(h1), ReadStep::Data(vec![1]));
    assert_eq!(relay.read(h1), ReadStep::End);
    assert_eq!(relay.read(h2), ReadStep::Pending);
}

#[test]
fn storage_roundtrip() {
    let mut store = MemoryContainer::new();
    assert!(!store.blob_exists("a"));
    assert_eq!(store.get_content("a"), Err(StorageError::NotFound));
    assert!(store.set_content("a", vec![9, 8]).is_ok());
    assert!(store.blob_exists("a"));
    assert_eq!(store.get_content("a"), Ok(vec![9, 8]));
    assert_eq!(store.get_metadata("a"), Err(StorageError::NotFound));
    assert!(store.set_metadata("a", "23.0".to_owned()).is_ok());
    assert_eq!(store.get_metadata("a"), Ok("23.0".to_owned()));
    assert!(store.set_metadata("a", "42".to_owned()).is_ok());
    assert_eq!(store.get_metadata("a"), Ok("42".to_owned()));
}

#[test]
fn committed_segments_are_immutable() {
    let mut store = MemoryContainer::new();
    assert!(store.set_content("seg", vec![1, 2, 3]).is_ok());
    let first = store.get_content("seg").unwrap();
    assert!(store.set_content("seg", vec![9, 9, 9]).is_ok());
    let second = store.get_content("seg").unwrap();
    assert_eq!(first, second);
    assert_eq!(second, vec![1, 2, 3]);
}

#[test]
fn storage_error_messages() {
    assert_eq!(
        StorageError::NotFound.message(),
        "The file or directory is not found!"
    );
    assert_eq!(StorageError::AuthenticationError.message(), "Authentication error!");
    assert_eq!(StorageError::HttpError("x".to_owned()).message(), "HTTP error");
    assert_eq!(StorageError::Other("y".to_owned()).message(), "Other error");
}
