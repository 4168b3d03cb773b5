use pang_streaming::auth::{is_success_status, stream_id_from_reply, user_from_reply, AuthError, BaseStreamUserResponse, StreamUserResponse};
use pang_streaming::config::{AdaptiveBitrateConfig, ApiConfig, Config, HlsConfig, S3Config, ServerConfig};
use pang_streaming::flv::{header, parse_tag, tag};
use pang_streaming::pipeline::{hls_base_url, output_dir, packager_args, FfmpegPipelineManager, PipelineError};
use pang_streaming::session::{MediaKind, RtmpSessionHandler, SessionError, SessionState, StreamHandle, StreamRegistry};

fn alice() -> StreamUserResponse {
    StreamUserResponse::new("alice".to_string(), "2024-01-01T00:00:00Z".to_string())
}

fn handle(id: u32) -> StreamHandle {
    StreamHandle { session_id: id, stream_key: "abc".to_string(), output_dir: "out".to_string(), start_time_ms: 0 }
}

fn config() -> Config {
    Config {
        server: ServerConfig { host: "0.0.0.0".to_string(), segment_delay: 0, port: 1935 },
        hls: HlsConfig {
            save_dir: "hls_output".to_string(),
            segment_duration_ms: 1000,
            part_duration_ms: 200,
            max_segments: 10,
            max_parts: 50,
            enable_server_push: false,
            enable_preload_hint: true,
            target_latency_ms: 1000,
        },
        adaptive_bitrate: AdaptiveBitrateConfig { enabled: false, variants: vec![] },
        api: ApiConfig { host: "http://localhost:8080".to_string() },
        s3: S3Config {
            bucket: "media".to_string(),
            region: "ap-northeast-2".to_string(),
            access_key: "k".to_string(),
            secret_access_key: "s".to_string(),
            endpoint_uri: "".to_string(),
        },
    }
}

#[test]
fn happy_path_publish_resolves_stream_id() {
    let mut registry = StreamRegistry::new();
    let mut s = RtmpSessionHandler::new();
    assert_eq!(s.on_publish(1, "live", "abc"), Ok(()));
    let id = s.on_auth_result(Ok(alice())).unwrap();
    assert_eq!(id, "alice/2024-01-01T00:00:00Z");
    let first = s.on_packager_started(true).unwrap();
    assert_eq!(first, header());
    assert!(s.is_forwarding());
    assert_eq!(registry.insert(&id, handle(1)), Ok(()));
    let bytes = s.on_data(MediaKind::Video, 40, &[1, 2, 3]).unwrap();
    assert_eq!(bytes, tag(9, 40, &[1, 2, 3]));
    let parsed = parse_tag(&bytes).unwrap();
    assert_eq!((parsed.kind, parsed.timestamp, parsed.payload), (9, 40, vec![1, 2, 3]));
    assert_eq!(s.on_data(MediaKind::Audio, 41, &[]).unwrap()[0], 8);
    assert_eq!(s.on_data(MediaKind::Metadata, 0, &[]).unwrap()[0], 18);
    let (sid, stream) = s.on_unpublish().unwrap();
    assert_eq!((sid, stream.as_str()), (1, "alice/2024-01-01T00:00:00Z"));
    assert!(registry.remove(&stream).is_ok());
    assert!(matches!(s.state, SessionState::Idle));
}

#[test]
fn empty_key_is_rejected() {
    let registry = StreamRegistry::new();
    let mut s = RtmpSessionHandler::new();
    assert_eq!(s.on_publish(1, "live", ""), Err(SessionError::InvalidParam));
    assert!(matches!(s.state, SessionState::Idle));
    assert_eq!(registry.len(), 0);
    assert!(s.on_data(MediaKind::Video, 0, &[1]).is_none());
}

#[test]
fn any_session_id_may_publish() {
    let mut s = RtmpSessionHandler::new();
    assert_eq!(s.on_publish(0, "live", "abc"), Ok(()));
    assert!(matches!(s.state, SessionState::Authenticating { session_id: 0 }));
    assert_eq!(s.on_publish(5, "live", "abc"), Err(SessionError::InvalidParam));
}

#[test]
fn broken_pipe_stops_forwarding_until_unpublish() {
    let mut registry = StreamRegistry::new();
    let mut s = RtmpSessionHandler::new();
    s.on_publish(7, "live", "abc").unwrap();
    let id = s.on_auth_result(Ok(alice())).unwrap();
    s.on_packager_started(true).unwrap();
    registry.insert(&id, handle(7)).unwrap();
    s.on_write_result(true);
    assert!(s.is_forwarding());
    s.on_write_result(false);
    assert!(matches!(s.state, SessionState::Draining { .. }));
    assert!(s.on_data(MediaKind::Video, 1, &[1]).is_none());
    let (_, stream) = s.on_unpublish().unwrap();
    assert!(registry.remove(&stream).is_ok());
    assert!(!registry.contains(&id));
}

#[test]
fn auth_and_spawn_failures_reject_the_publish() {
    let mut s = RtmpSessionHandler::new();
    s.on_publish(1, "live", "abc").unwrap();
    assert_eq!(s.on_auth_result(Err(AuthError::Denied)), Err(SessionError::Auth(AuthError::Denied)));
    assert!(matches!(s.state, SessionState::Idle));
    s.on_publish(1, "live", "abc").unwrap();
    s.on_auth_result(Ok(alice())).unwrap();
    assert_eq!(s.on_packager_started(false), Err(SessionError::Spawn));
    assert!(matches!(s.state, SessionState::Idle));
    assert_eq!(s.on_packager_started(true), Err(SessionError::InvalidParam));
    assert!(s.on_unpublish().is_none());
}

#[test]
fn registry_refuses_duplicates_and_reports_missing() {
    let mut r = StreamRegistry::new();
    assert_eq!(r.insert("a", handle(1)), Ok(()));
    assert_eq!(r.insert("a", handle(2)), Err(SessionError::AlreadyExists));
    assert_eq!(r.stream_ids(), vec!["a".to_string()]);
    assert_eq!(r.remove("a").unwrap().session_id, 1);
    assert!(matches!(r.remove("a"), Err(SessionError::NotFound)));
}

#[test]
fn pipeline_write_failure_evicts_packager() {
    let mut p: FfmpegPipelineManager<Vec<u8>> = FfmpegPipelineManager::new();
    assert!(p.register(3, Vec::new()).is_ok());
    assert!(p.register(3, Vec::new()).is_err());
    let mut sink = p.begin_write(3).unwrap();
    sink.extend_from_slice(b"FLV");
    assert_eq!(p.finish_write(3, sink, true), Ok(()));
    assert!(p.has_pipeline(3));
    let sink = p.begin_write(3).unwrap();
    assert_eq!(p.finish_write(3, sink, false), Err(PipelineError::BrokenPipe));
    assert!(!p.has_pipeline(3));
    assert!(p.begin_write(3).is_none());
    p.register(4, Vec::new()).unwrap();
    p.register(5, Vec::new()).unwrap();
    assert_eq!(p.active_pipeline_count(), 2);
    assert!(p.stop_pipeline(4));
    assert!(!p.stop_pipeline(4));
    p.stop_all_pipelines();
    assert_eq!(p.active_pipeline_count(), 0);
}

#[test]
fn packager_arguments_are_reproducible() {
    let c = config();
    let args = packager_args(&c, "alice/t");
    assert_eq!(args.len(), 45);
    assert_eq!(args[0], "-i");
    assert_eq!(args[1], "pipe:0");
    let pos = args.iter().position(|a| a == "-hls_segment_filename").unwrap();
    assert_eq!(args[pos + 1], "hls_output/alice/t/segment_%d.m4s");
    let pos = args.iter().position(|a| a == "-hls_base_url").unwrap();
    assert_eq!(args[pos + 1], "https://media.s3.ap-northeast-2.amazonaws.com/hls_output/alice/t/");
    assert_eq!(args[44], "hls_output/alice/t/playlist.m3u8");
    let pos = args.iter().position(|a| a == "-hls_time").unwrap();
    assert_eq!(args[pos + 1], "0.200");
    assert_eq!(packager_args(&c, "alice/t"), args);
    assert_eq!(output_dir("save", "x"), "save/x");
    assert_eq!(hls_base_url("b", "r", "s"), "https://b.s3.r.amazonaws.com/hls_output/s/");
}

#[test]
fn auth_reply_maps_to_stream_id() {
    assert!(is_success_status(200) && is_success_status(299));
    assert!(!is_success_status(199) && !is_success_status(401));
    let body = BaseStreamUserResponse {
        status: "OK".to_string(),
        message: "".to_string(),
        data: alice(),
        timestamp: "".to_string(),
    };
    assert_eq!(stream_id_from_reply(200, Some(body)), Ok("alice/2024-01-01T00:00:00Z".to_string()));
    assert_eq!(stream_id_from_reply(403, None), Err(AuthError::Denied));
    assert_eq!(user_from_reply(500, None).err(), Some(AuthError::Denied));
    assert_eq!(user_from_reply(204, None).err(), Some(AuthError::Transport));
    let body = BaseStreamUserResponse {
        status: "OK".to_string(),
        message: "".to_string(),
        data: alice(),
        timestamp: "".to_string(),
    };
    assert_eq!(user_from_reply(200, Some(body)).unwrap().nickname, "alice");
    assert_eq!(stream_id_from_reply(200, None), Err(AuthError::Transport));
    assert_eq!(alice().get_nickname(), "alice");
    assert_eq!(alice().get_start_time(), "2024-01-01T00:00:00Z");
}
