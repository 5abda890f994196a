use jitstream::config::AppConfig;
use jitstream::dispatch::{build_job_descriptor, job_name, JobRegistry, SubmitOutcome};
use jitstream::location::Location;
use jitstream::manifest::{duration_whole_seconds, metadata_duration, num_segments,
    ManifestServer};
use jitstream::pipeline::{
    join_path, with_extension, EncryptionOptions, Packager, PackagerFiles, PackagerOptions,
    PackagerStream, Preset, StreamType,
};
use jitstream::proxy::{StorageClient, StorageConfig};
use jitstream::relay::{PipeRelay, ReadStep};
use jitstream::router::{
    parse_level_component, parse_level_playlist_name, parse_segment_file_name,
    plan_segment_request, response_status, segment_blob_path, serve_segment, video_stem,
    SegmentOutcome, SegmentPlan,
};
use jitstream::storage::{MemoryContainer, StorageContainer, StorageError};
use jitstream::worker::{
    first_upload_error, input_pipe_paths, join_pipeline, manifest_upload_paths,
    media_upload_paths, Encoder, PipelineStage,
};

#[test]
fn parses_request_names() {
    assert_eq!(parse_level_playlist_name("level1.m3u8"), Some(1));
    assert_eq!(parse_level_playlist_name("level12.m3u8"), Some(12));
    assert_eq!(parse_level_playlist_name("level.m3u8"), None);
    assert_eq!(parse_level_playlist_name("level1.m3u"), None);
    assert_eq!(parse_level_playlist_name("evel1.m3u8"), None);
    assert_eq!(parse_level_component("level2"), Some(2));
    assert_eq!(parse_level_component("level"), None);
    assert_eq!(parse_segment_file_name("segment0.ts"), Some(0));
    assert_eq!(parse_segment_file_name("segment17.ts"), Some(17));
    assert_eq!(parse_segment_file_name("segment.ts"), None);
    assert_eq!(parse_segment_file_name("segment0.mp4"), None);
}

#[test]
fn stems_and_paths() {
    assert_eq!(video_stem("movie.m3u8"), "movie");
    assert_eq!(video_stem("movie"), "movie");
    assert_eq!(video_stem("movie.tar.gz"), "movie.tar");
    assert_eq!(video_stem(".hidden"), ".hidden");
    assert_eq!(segment_blob_path("movie", 1, 0), "/movie/level1/segment0.ts");
    assert_eq!(segment_blob_path("m", 0, 12), "/m/level0/segment12.ts");
}

#[test]
fn duration_parsing() {
    assert_eq!(duration_whole_seconds("23.0"), Some(23));
    assert_eq!(duration_whole_seconds("23.9"), Some(23));
    assert_eq!(duration_whole_seconds("23"), Some(23));
    assert_eq!(duration_whole_seconds("23."), Some(23));
    assert_eq!(duration_whole_seconds("0.4"), Some(0));
    assert_eq!(duration_whole_seconds(""), None);
    assert_eq!(duration_whole_seconds(".5"), None);
    assert_eq!(duration_whole_seconds("2x.0"), None);
    assert_eq!(duration_whole_seconds("23.0.1"), None);
    assert_eq!(num_segments(23), 4);
    assert_eq!(num_segments(25), 5);
    assert_eq!(num_segments(4), 0);
}

#[test]
fn segment_plans() {
    let mut c = AppConfig::new();
    assert_eq!(plan_segment_request(true, true, &c), SegmentPlan::ServeFromStorage);
    assert_eq!(plan_segment_request(false, true, &c), SegmentPlan::DispatchLive);
    c.stream_while_encoding = false;
    assert_eq!(plan_segment_request(false, true, &c), SegmentPlan::DispatchAndWait);
    c.stream_while_encoding = true;
    c.encode_ahead = true;
    assert_eq!(plan_segment_request(false, true, &c), SegmentPlan::DispatchAndWait);
    assert_eq!(response_status(true), 200);
    assert_eq!(response_status(false), 404);
}

#[test]
fn variant_playlist_for_existing_video() {
    let mut store = MemoryContainer::new();
    store.set_content("movie", vec![0]).unwrap();
    let server = ManifestServer::new(store);
    let entries = server.get_variant_playlist("movie.m3u8").unwrap();
    assert_eq!(entries.len(), 3);
    assert_eq!(entries[0].uri, "movie/level0.m3u8");
    assert_eq!(entries[1].uri, "movie/level1.m3u8");
    assert_eq!(entries[2].uri, "movie/level2.m3u8");
    assert_eq!(entries[0].bandwidth, 2000000);
    assert_eq!((entries[0].width, entries[0].height), (1920, 1080));
    assert_eq!(entries[1].bandwidth, 1000000);
    assert_eq!(entries[2].bandwidth, 600000);
}

#[test]
fn variant_playlist_for_missing_video() {
    let store = MemoryContainer::new();
    let server = ManifestServer::new(store);
    let res = server.get_variant_playlist("ghost.m3u8");
    assert_eq!(res, Err(StorageError::NotFound));
}

#[test]
fn media_playlist_from_duration_metadata() {
    let mut store = MemoryContainer::new();
    store.set_content("movie", vec![0]).unwrap();
    store
        .set_metadata("movie", "{\"format\": {\"duration\": 23.0}}".to_owned())
        .unwrap();
    let server = ManifestServer::new(store);
    let uris = server.get_media_playlist("movie", 1).unwrap();
    assert_eq!(uris.len(), 4);
    assert_eq!(uris[0], "level1/segment0.ts");
    assert_eq!(uris[1], "level1/segment1.ts");
    assert_eq!(uris[2], "level1/segment2.ts");
    assert_eq!(uris[3], "level1/segment3.ts");
}

#[test]
fn metadata_duration_reads_the_document_field() {
    // A full probe-style document: other fields and objects are skipped,
    // only format.duration counts.
    let doc = "{\"streams\": [{\"index\": 0, \"duration\": 99}],                \"format\": {\"bit_rate\": \"5\", \"duration\": 23.5}}";
    assert_eq!(metadata_duration(doc), Some(23));
    assert_eq!(metadata_duration("{\"format\": {\"duration\": 23}}"), Some(23));
    // A bare number has no format.duration field.
    assert_eq!(metadata_duration("7"), None);
    // Plain decimal text is not a metadata document.
    assert_eq!(metadata_duration("23.0"), None);
    // duration must be numeric, not a string.
    assert_eq!(metadata_duration("{\"format\": {\"duration\": \"23.0\"}}"), None);
    assert_eq!(metadata_duration("{\"format\": {}}"), None);
    assert_eq!(metadata_duration("not json"), None);
}

#[test]
fn media_playlist_without_metadata_is_not_found() {
    let store = MemoryContainer::new();
    let server = ManifestServer::new(store);
    assert_eq!(server.get_media_playlist("movie", 1), Err(StorageError::NotFound));
}

#[test]
fn media_playlist_with_bad_metadata_is_other_error() {
    let mut store = MemoryContainer::new();
    store.set_metadata("movie", "soon".to_owned()).unwrap();
    let server = ManifestServer::new(store);
    match server.get_media_playlist("movie", 1) {
        Err(StorageError::Other(_)) => {},
        other => panic!("expected Other, got {:?}", other),
    }
}

#[test]
fn media_playlist_refuses_metadata_without_the_field() {
    // A bare number parses as JSON but carries no format.duration.
    let mut store = MemoryContainer::new();
    store.set_metadata("movie", "7".to_owned()).unwrap();
    let server = ManifestServer::new(store);
    match server.get_media_playlist("movie", 1) {
        Err(StorageError::Other(_)) => {},
        other => panic!("expected Other, got {:?}", other),
    }
}

#[test]
fn segment_miss_streams_through_relay() {
    // A segment request misses storage while the video exists: a handle
    // is allocated before dispatch, the job is told to post to the relay
    // endpoint, and the posted bytes come back in order until the close.
    let config = AppConfig::new();
    let mut store = MemoryContainer::new();
    store.set_content("movie", vec![0]).unwrap();

    let stem = video_stem("movie");
    let path = segment_blob_path(&stem, 1, 0);
    let segment_exists = store.blob_exists(&path);
    let video_exists = store.blob_exists(&stem);
    let plan = plan_segment_request(segment_exists, video_exists, &config);
    assert_eq!(plan, SegmentPlan::DispatchLive);

    let mut relay = PipeRelay::new();
    let handle = relay.allocate();
    let d = build_job_descriptor(
        &config,
        &jitstream::config::JobConfig::new(),
        "https://store/movie",
        "movie",
        1,
        0,
        Some(handle),
    );
    assert_eq!(d.args[3], "http://127.0.0.1/pipe/0");

    let mut registry = JobRegistry::new();
    assert_eq!(registry.create(&d.name), SubmitOutcome::Created);

    // The job posts two chunks to /pipe/{handle} and ends its body.
    assert!(relay.route(handle, vec![10, 11]).is_ok());
    assert!(relay.route(handle, vec![12]).is_ok());
    assert!(relay.close(handle).is_ok());

    assert_eq!(relay.read(handle), ReadStep::Data(vec![10, 11]));
    assert_eq!(relay.read(handle), ReadStep::Data(vec![12]));
    assert_eq!(relay.read(handle), ReadStep::End);
}

#[test]
fn served_segment_requests_collapse_into_one_job() {
    // Two identical cache-miss requests: both are told to go live, a
    // fresh handle each, but the scheduler records exactly one job.
    let config = AppConfig::new();
    let job_config = jitstream::config::JobConfig::new();
    let mut store = MemoryContainer::new();
    store.set_content("movie", vec![0]).unwrap();
    let mut registry = JobRegistry::new();
    let mut relay = PipeRelay::new();

    let first = serve_segment(
        &store, &mut registry, &mut relay, &config, &job_config,
        "https://store/movie", "movie", 1, 0,
    );
    let (h1, d1) = match first {
        SegmentOutcome::Live(h, d) => (h, d),
        other_shape => panic!("expected live delivery, got {}", describe(&other_shape)),
    };
    assert_eq!(d1.name, "movie-l1-s0");
    assert_eq!(d1.args[3], "http://127.0.0.1/pipe/0");
    assert_eq!(registry.count(), 1);

    let second = serve_segment(
        &store, &mut registry, &mut relay, &config, &job_config,
        "https://store/movie", "movie", 1, 0,
    );
    let (h2, d2) = match second {
        SegmentOutcome::Live(h, d) => (h, d),
        other_shape => panic!("expected live delivery, got {}", describe(&other_shape)),
    };
    assert_eq!(d2.name, "movie-l1-s0");
    assert_ne!(h1, h2);
    assert_eq!(registry.count(), 1);

    // The job posts into the first request's sink; its reader drains it.
    assert!(relay.route(h1, vec![1, 2]).is_ok());
    assert!(relay.close(h1).is_ok());
    assert_eq!(relay.read(h1), ReadStep::Data(vec![1, 2]));
    assert_eq!(relay.read(h1), ReadStep::End);
}

#[test]
fn served_segment_hits_storage_first() {
    let config = AppConfig::new();
    let job_config = jitstream::config::JobConfig::new();
    let mut store = MemoryContainer::new();
    store.set_content("movie", vec![0]).unwrap();
    store
        .set_content("/movie/level1/segment0.ts", vec![42, 43])
        .unwrap();
    let mut registry = JobRegistry::new();
    let mut relay = PipeRelay::new();
    let outcome = serve_segment(
        &store, &mut registry, &mut relay, &config, &job_config,
        "https://store/movie", "movie", 1, 0,
    );
    match outcome {
        SegmentOutcome::Stored(bytes) => assert_eq!(bytes, vec![42, 43]),
        other_shape => panic!("expected stored bytes, got {}", describe(&other_shape)),
    }
    assert_eq!(registry.count(), 0);
}

#[test]
fn served_segment_for_missing_video_is_refused() {
    let config = AppConfig::new();
    let job_config = jitstream::config::JobConfig::new();
    let store = MemoryContainer::new();
    let mut registry = JobRegistry::new();
    let mut relay = PipeRelay::new();
    let outcome = serve_segment(
        &store, &mut registry, &mut relay, &config, &job_config,
        "https://store/ghost", "ghost", 0, 0,
    );
    assert!(matches!(outcome, SegmentOutcome::NotFound));
    assert_eq!(registry.count(), 0);
}

#[test]
fn served_segment_waits_when_live_delivery_is_off() {
    let mut config = AppConfig::new();
    config.stream_while_encoding = false;
    let job_config = jitstream::config::JobConfig::new();
    let mut store = MemoryContainer::new();
    store.set_content("movie", vec![0]).unwrap();
    let mut registry = JobRegistry::new();
    let mut relay = PipeRelay::new();
    let outcome = serve_segment(
        &store, &mut registry, &mut relay, &config, &job_config,
        "https://store/movie", "movie", 1, 2,
    );
    match outcome {
        SegmentOutcome::Waiting(d) => {
            assert_eq!(d.name, "movie-l1-s2");
            assert_eq!(d.args[3], "https://store/movie/level1/segment%d.ts");
        }
        other_shape => panic!("expected a waiting dispatch, got {}", describe(&other_shape)),
    }
    assert_eq!(registry.count(), 1);
}

fn describe(outcome: &SegmentOutcome) -> &'static str {
    match outcome {
        SegmentOutcome::Stored(_) => "stored bytes",
        SegmentOutcome::Live(_, _) => "live delivery",
        SegmentOutcome::Waiting(_) => "a waiting dispatch",
        SegmentOutcome::NotFound => "not found",
    }
}

#[test]
fn missing_video_dispatches_nothing() {
    let config = AppConfig::new();
    let store = MemoryContainer::new();
    let stem = video_stem("ghost");
    let path = segment_blob_path(&stem, 0, 0);
    let plan = plan_segment_request(store.blob_exists(&path), store.blob_exists(&stem), &config);
    assert_eq!(plan, SegmentPlan::RejectNotFound);
    assert_eq!(response_status(false), 404);
    let registry = JobRegistry::new();
    assert_eq!(registry.count(), 0);
}

#[test]
fn path_manipulation() {
    assert_eq!(join_path("/out", "video_0"), "/out/video_0");
    assert_eq!(join_path("/out/", "video_0"), "/out/video_0");
    assert_eq!(join_path("out", "/abs/file"), "/abs/file");
    assert_eq!(join_path("", "video_0"), "video_0");
    assert_eq!(with_extension("/out/video_0", "mp4"), "/out/video_0.mp4");
    assert_eq!(with_extension("/out/video_0.raw", "mp4"), "/out/video_0.mp4");
    assert_eq!(with_extension("manifest", ".mpd"), "manifest..mpd");
    assert_eq!(with_extension("/a.b/name", "m3u8"), "/a.b/name.m3u8");
}

#[test]
fn preset_values() {
    let p = Preset::h264_720p();
    assert_eq!(p.video_codec, "libx264");
    assert_eq!(p.audio_codec, "aac");
    assert_eq!(p.videos.len(), 3);
    assert_eq!(p.videos[0].size, "1200x720");
    assert_eq!(p.videos[0].bitrate, "1500000");
    assert_eq!(p.videos[1].size, "850x480");
    assert_eq!(p.videos[2].bitrate, "750000");
    assert_eq!(p.audios.len(), 1);
    assert_eq!(p.audios[0].bitrate, "64000");
    assert_eq!(p.audios[0].channels, "2");
    assert_eq!(StreamType::Audio.name(), "audio");
    assert_eq!(StreamType::Video.name(), "video");
}

#[test]
fn packager_file_layout() {
    let preset = Preset::h264_720p();
    let options = PackagerOptions::create("manifest".to_owned());
    assert!(options.pipes);
    assert_eq!(options.command, "packager");
    let inputs: Vec<String> = vec![
        "/tmp/_input_0.mp4".to_owned(),
        "/tmp/_input_1.mp4".to_owned(),
        "/tmp/_input_2.mp4".to_owned(),
        "/tmp/_input_3.mp4".to_owned(),
    ];
    let files = options.get_files(&preset, "/out", &inputs);
    assert_eq!(files.streams.len(), 4);
    assert_eq!(files.streams[0].output, "/out/video_0.mp4");
    assert_eq!(files.streams[0].manifest, "/out/video_0.m3u8");
    assert_eq!(files.streams[1].output, "/out/video_1.mp4");
    assert_eq!(files.streams[2].output, "/out/video_2.mp4");
    assert_eq!(files.streams[3].output, "/out/audio_0.mp4");
    assert_eq!(files.streams[3].stream_type, StreamType::Audio);
    assert_eq!(files.streams[0].input, "/tmp/_input_0.mp4");
    assert_eq!(files.manifest.output, "/out/manifest..mpd");
    assert_eq!(files.manifest.manifest, "/out/manifest..m3u8");
}

#[test]
fn packager_file_layout_with_two_audio_renditions() {
    let preset = Preset {
        video_codec: "libx264".to_owned(),
        audio_codec: "aac".to_owned(),
        videos: vec![jitstream::pipeline::Video::create(100, 50, 1000)],
        audios: vec![
            jitstream::pipeline::Audio::create(64),
            jitstream::pipeline::Audio::create(128),
        ],
    };
    let options = PackagerOptions::create("manifest".to_owned());
    let inputs: Vec<String> = vec![
        "/tmp/_input_0.mp4".to_owned(),
        "/tmp/_input_1.mp4".to_owned(),
        "/tmp/_input_2.mp4".to_owned(),
    ];
    let files = options.get_files(&preset, "/out", &inputs);
    assert_eq!(files.streams.len(), 3);
    assert_eq!(files.streams[0].output, "/out/video_0.mp4");
    assert_eq!(files.streams[1].output, "/out/audio_0.mp4");
    assert_eq!(files.streams[2].output, "/out/audio_1.mp4");
    assert_eq!(files.streams[1].stream_type, StreamType::Audio);
    assert_eq!(files.streams[2].stream_type, StreamType::Audio);
}

#[test]
fn packager_argument_vector() {
    let s0 = PackagerStream::create(StreamType::Video, "/p/in0", "/out", "video_0");
    let s1 = PackagerStream::create(StreamType::Audio, "/p/in1", "/out", "audio_0");
    let top = PackagerStream {
        stream_type: StreamType::Video,
        input: String::new(),
        output: "/out/manifest..mpd".to_owned(),
        manifest: "/out/manifest..m3u8".to_owned(),
    };
    let files = PackagerFiles::create(vec![s0, s1], top);
    let packager = Packager::new(PackagerOptions::create("manifest".to_owned()));
    assert_eq!(packager.command(), "packager");

    let args = packager.args(&files, &None);
    let expected: Vec<String> = vec![
        "stream=video,in=/p/in0,format=mp4,out=/out/video_0.mp4,playlist_name=/out/video_0.m3u8"
            .to_owned(),
        "stream=audio,in=/p/in1,format=mp4,out=/out/audio_0.mp4,playlist_name=/out/audio_0.m3u8"
            .to_owned(),
        "--vmodule=*=1".to_owned(),
        "--mpd_output".to_owned(),
        "/out/manifest..mpd".to_owned(),
        "--hls_master_playlist_output".to_owned(),
        "/out/manifest..m3u8".to_owned(),
    ];
    assert_eq!(args, expected);

    let enc = EncryptionOptions {
        key_id: "kid".to_owned(),
        key: "key".to_owned(),
        hls_key_uri: Some("https://lic/".to_owned()),
    };
    let args = packager.args(&files, &Some(enc));
    assert_eq!(args[2], "--enable_raw_key_encryption");
    assert_eq!(args[3], "--protection_scheme");
    assert_eq!(args[4], "cbcs");
    assert_eq!(args[5], "--keys");
    assert_eq!(args[6], "label=cenc:key_id=kid:key=key");
    assert_eq!(args[7], "--clear_lead");
    assert_eq!(args[8], "0");
    assert_eq!(args[9], "--hls_key_uri");
    assert_eq!(args[10], "https://lic/");
}

#[test]
fn encoder_argument_vector() {
    let preset = Preset {
        video_codec: "libx264".to_owned(),
        audio_codec: "aac".to_owned(),
        videos: vec![jitstream::pipeline::Video::create(100, 50, 1000)],
        audios: vec![jitstream::pipeline::Audio::create(64)],
    };
    let encoder = Encoder::create(preset);
    let outputs = vec![
        PackagerStream::create(StreamType::Video, "/p/v0", "/out", "video_0"),
        PackagerStream::create(StreamType::Audio, "/p/a0", "/out", "audio_0"),
    ];
    let args = encoder.command_args("in.mp4", &outputs);
    let expected: Vec<String> = vec![
        "-y".to_owned(),
        "-i".to_owned(),
        "in.mp4".to_owned(),
        "-an".to_owned(),
        "-c:v".to_owned(),
        "libx264".to_owned(),
        "-s".to_owned(),
        "100x50".to_owned(),
        "-b:v".to_owned(),
        "1000".to_owned(),
        "-r".to_owned(),
        "30".to_owned(),
        "-g".to_owned(),
        "60".to_owned(),
        "-movflags".to_owned(),
        "cmaf+delay_moov+skip_trailer+skip_sidx+frag_keyframe".to_owned(),
        "/p/v0".to_owned(),
        "-vn".to_owned(),
        "-c:a".to_owned(),
        "aac".to_owned(),
        "-b:a".to_owned(),
        "64".to_owned(),
        "-movflags".to_owned(),
        "cmaf+delay_moov+skip_trailer+skip_sidx".to_owned(),
        "-frag_duration".to_owned(),
        "2".to_owned(),
        "/p/a0".to_owned(),
    ];
    assert_eq!(args, expected);
}

#[test]
fn upload_fan_out_lists() {
    let s0 = PackagerStream::create(StreamType::Video, "/p/in0", "/out", "video_0");
    let s1 = PackagerStream::create(StreamType::Audio, "/p/in1", "/out", "audio_0");
    let top = PackagerStream {
        stream_type: StreamType::Video,
        input: String::new(),
        output: "/out/manifest..mpd".to_owned(),
        manifest: "/out/manifest..m3u8".to_owned(),
    };
    let files = PackagerFiles::create(vec![s0, s1], top);
    assert_eq!(
        media_upload_paths(&files),
        vec!["/out/video_0.mp4".to_owned(), "/out/audio_0.mp4".to_owned()]
    );
    assert_eq!(
        manifest_upload_paths(&files),
        vec![
            "/out/video_0.m3u8".to_owned(),
            "/out/audio_0.m3u8".to_owned(),
            "/out/manifest..mpd".to_owned(),
            "/out/manifest..m3u8".to_owned(),
        ]
    );
    assert_eq!(input_pipe_paths("/tmp", 2), vec![
        "/tmp/_input_0.mp4".to_owned(),
        "/tmp/_input_1.mp4".to_owned(),
    ]);
}

#[test]
fn upload_results_surface_earliest_failure() {
    let all_ok: Vec<Result<(), String>> = vec![Ok(()), Ok(())];
    assert!(first_upload_error(&all_ok).is_ok());
    let mixed: Vec<Result<(), String>> = vec![
        Ok(()),
        Err("disk full".to_owned()),
        Err("later".to_owned()),
    ];
    assert_eq!(first_upload_error(&mixed), Err("disk full".to_owned()));
}

#[test]
fn encoder_failure_is_the_job_failure() {
    // The packager and uploader also broke (their pipes collapsed), but
    // the joined job outcome carries the encoder's error.
    let r = join_pipeline(
        Err("codec exited with 1".to_owned()),
        Err("pipe closed".to_owned()),
        Err("upload aborted".to_owned()),
    );
    let f = r.unwrap_err();
    assert_eq!(f.stage, PipelineStage::Encoder);
    assert_eq!(f.message, "codec exited with 1");

    let r = join_pipeline(Ok(()), Err("bad stream".to_owned()), Ok(()));
    let f = r.unwrap_err();
    assert_eq!(f.stage, PipelineStage::Packager);
    assert_eq!(f.message, "bad stream");

    let r = join_pipeline(Ok(()), Ok(()), Err("upload aborted".to_owned()));
    assert_eq!(r.unwrap_err().stage, PipelineStage::Uploader);

    assert!(join_pipeline(Ok(()), Ok(()), Ok(())).is_ok());
}

#[test]
fn proxy_urls() {
    let client = StorageClient::new(
        StorageConfig { storage_port: 8080, node_address: "10.0.0.1".to_owned() },
        "acct",
        "movie",
    );
    assert_eq!(
        client.get_url("segment0.ts", false),
        "http://10.0.0.1:8080/acct/movie/segment0.ts"
    );
    assert_eq!(
        client.get_url("duration", true),
        "http://10.0.0.1:8080/acct/movie/duration/metadata"
    );
}

#[test]
fn transport_errors_become_http_errors() {
    let runtime = tokio::runtime::Builder::new_current_thread()
        .enable_all()
        .build()
        .unwrap();
    let error = runtime
        .block_on(reqwest::Client::new().get("http://127.0.0.1:1/").send())
        .unwrap_err();
    match StorageClient::from_reqwest_error(error) {
        StorageError::HttpError(description) => assert!(!description.is_empty()),
        other => panic!("expected HttpError, got {:?}", other),
    }
}

#[test]
fn location_parsing() {
    let url = Location::parse("https://store.example/container?sig=tok");
    match &url {
        Location::Url(u) => assert_eq!(u, "https://store.example/container?sig=tok"),
        Location::Path(_) => panic!("expected a URL"),
    }
    assert_eq!(url.to_str(), "https://store.example/container?sig=tok");

    let path = Location::parse("media/in.mp4");
    match &path {
        Location::Path(p) => assert_eq!(p, "media/in.mp4"),
        Location::Url(_) => panic!("expected a path"),
    }
    assert_eq!(path.to_str(), "media/in.mp4");
}
