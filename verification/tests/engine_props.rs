//! Scenarios for the engine's cross-cutting guarantees: registration order,
//! retention, path safety, cache hits, symlink lifecycle, sorting, the
//! capability gate and the synchronization window.

use c8y_mapper::actor::C8yMapperActor;
use c8y_mapper::actor::FsWatchEvent;
use c8y_mapper::converter::C8yMapperConfig;
use c8y_mapper::converter::Capabilities;
use c8y_mapper::converter::CumulocityConverter;
use c8y_mapper::converter::Effect;
use c8y_mapper::converter::MqttMessage;
use c8y_mapper::sanitize_type_tag;

const DATA: &str = "ttd";
const OPS: &str = "operations/c8y";

fn actor_with(caps: Capabilities) -> C8yMapperActor {
    let config = C8yMapperConfig {
        device_id: "test-device".to_string(),
        tedge_http_host: "localhost:8888".to_string(),
        data_dir: DATA.to_string(),
        ops_dir: OPS.to_string(),
        capabilities: caps,
    };
    C8yMapperActor::new(CumulocityConverter::new(config))
}

fn actor() -> C8yMapperActor {
    actor_with(Capabilities { config_snapshot: true, config_update: true })
}

fn msg(topic: &str, payload: &str) -> MqttMessage {
    MqttMessage::new(topic.to_string(), payload.to_string())
}

fn publishes(effs: &[Effect]) -> Vec<(String, String, bool)> {
    let mut out = Vec::new();
    for e in effs {
        if let Effect::Publish(m) = e {
            out.push((m.topic.clone(), m.payload.clone(), m.retain));
        }
    }
    out
}

#[test]
fn atomic_auto_registration_precedes_converted_output() {
    let mut actor = actor();
    let effs = actor.process_mqtt_message(&msg(
        "te/device/child7///cmd/config_snapshot",
        r#"{"types":["typeA"]}"#,
    ));
    let pubs = publishes(&effs);
    // The very first output is the child's registration message …
    assert_eq!(pubs[0].0, "te/device/child7");
    assert_eq!(pubs[0].1, r#"{"@type":"device","type":"Gateway"}"#);
    // … and the converted output follows it.
    assert!(pubs
        .iter()
        .position(|(t, _, _)| t == "c8y/s/us/test-device:device:child7")
        .unwrap() > 0);
}

#[test]
fn service_topics_register_device_and_service() {
    let mut actor = actor();
    let effs = actor.process_mqtt_message(&msg(
        "te/device/child8/service/collectd/cmd/config_snapshot",
        r#"{"types":["typeA"]}"#,
    ));
    let pubs = publishes(&effs);
    assert_eq!(pubs[0].0, "te/device/child8");
    assert_eq!(pubs[1].0, "te/device/child8/service/collectd");
    assert_eq!(pubs[1].1, r#"{"@type":"service","type":"systemd"}"#);
    // Config operations for services are unsupported: nothing more comes out.
    assert_eq!(pubs.len(), 2);
    assert!(!effs.iter().any(|e| matches!(e, Effect::CreateFile { .. })));
}

#[test]
fn init_command_is_retained_and_terminal_clears_the_topic() {
    let mut actor = actor();
    // The init command carries the retain flag.
    let effs = actor.process_mqtt_message(&msg("c8y/s/ds", "526,test-device,typeA"));
    let pubs = publishes(&effs);
    assert!(pubs[0].2, "init command must be retained");

    // A terminal transition publishes an empty retained clear on the topic.
    let cmd_topic = "te/device/main///cmd/config_snapshot/1234";
    let effs = actor.process_mqtt_message(&msg(
        cmd_topic,
        r#"{"status":"failed","type":"typeA","reason":"boom"}"#,
    ));
    let pubs = publishes(&effs);
    assert_eq!(pubs.len(), 2);
    assert_eq!(pubs[1].0, cmd_topic);
    assert_eq!(pubs[1].1, "");
    assert!(pubs[1].2, "the clear message must be retained");
}

#[test]
fn type_tags_in_paths_use_colons() {
    assert_eq!(sanitize_type_tag("path/config/A"), "path:config:A");
    assert_eq!(sanitize_type_tag("noslash"), "noslash");
    assert_eq!(sanitize_type_tag("///"), ":::");
}

#[test]
fn cache_hit_skips_the_download() {
    let mut actor = actor();
    let frame = "524,test-device,http://www.my.url,typeA";
    let effs = actor.process_mqtt_message(&msg("c8y/s/ds", frame));
    let probe_frame = match &effs[0] {
        Effect::ProbeCache { frame, .. } => frame.clone(),
        _ => panic!("expected a cache probe"),
    };
    let effs = actor.process_cache_result(&probe_frame, true);
    assert!(!effs.iter().any(|e| matches!(e, Effect::Download { .. })));
    assert!(matches!(&effs[0], Effect::CreateSymlink { .. }));
    assert!(matches!(&effs[1], Effect::Publish(m) if m.retain));
}

#[test]
fn symlink_removed_on_terminal_is_the_one_created() {
    let mut actor = actor();
    let frame = "524,test-device,http://www.my.url,typeA";
    let effs = actor.process_mqtt_message(&msg("c8y/s/ds", frame));
    let probe_frame = match &effs[0] {
        Effect::ProbeCache { frame, .. } => frame.clone(),
        _ => panic!("expected a cache probe"),
    };
    let effs = actor.process_cache_result(&probe_frame, true);
    let (link, cmd_topic) = match (&effs[0], &effs[1]) {
        (Effect::CreateSymlink { link, .. }, Effect::Publish(m)) => {
            (link.clone(), m.topic.clone())
        }
        _ => panic!("expected symlink and init command"),
    };
    // The command reaches a terminal state: the same path is removed.
    let effs = actor.process_mqtt_message(&msg(
        &cmd_topic,
        r#"{"status":"successful","remoteUrl":"http://www.my.url","type":"typeA"}"#,
    ));
    let removed = effs
        .iter()
        .find_map(|e| match e {
            Effect::RemoveSymlink { path } => Some(path.clone()),
            _ => None,
        })
        .expect("terminal transition must remove the symlink");
    assert_eq!(removed, link);
}

#[test]
fn supported_types_are_sorted_ascending() {
    let mut actor = actor();
    let effs = actor.process_mqtt_message(&msg(
        "te/device/main///cmd/config_snapshot",
        r#"{"types":["typeC","typeA","typeB"]}"#,
    ));
    let pubs = publishes(&effs);
    assert_eq!(pubs[0].1, "119,typeA,typeB,typeC");

    // Duplicates are kept, and the order is by code point.
    let effs = actor.process_mqtt_message(&msg(
        "te/device/main///cmd/config_update",
        r#"{"types":["b","B","b"]}"#,
    ));
    let pubs = publishes(&effs);
    assert_eq!(pubs[0].1, "119,B,b,b");
}

#[test]
fn disabled_capability_produces_nothing() {
    let mut actor = actor_with(Capabilities { config_snapshot: false, config_update: false });

    let effs = actor.process_mqtt_message(&msg("c8y/s/ds", "526,test-device,typeA"));
    assert!(effs.is_empty());

    let effs = actor.process_mqtt_message(&msg("c8y/s/ds", "524,test-device,http://u,typeA"));
    assert!(effs.is_empty());

    let effs = actor.process_mqtt_message(&msg(
        "te/device/main///cmd/config_snapshot",
        r#"{"types":["typeA"]}"#,
    ));
    assert!(effs.is_empty());

    let effs = actor.process_mqtt_message(&msg(
        "te/device/main///cmd/config_update/1234",
        r#"{"status":"failed","type":"typeA","reason":"x"}"#,
    ));
    assert!(effs.is_empty());
}

#[test]
fn sync_window_buffers_commands_until_the_timer_fires() {
    let mut actor = actor();
    let effs = actor.start();
    assert!(matches!(effs[..], [Effect::StartSyncTimer]));

    // Retained command progress arriving inside the window is buffered.
    let effs = actor.process_mqtt_message(&msg(
        "te/device/main///cmd/config_snapshot/1234",
        r#"{"status":"executing","type":"typeA"}"#,
    ));
    assert!(effs.is_empty());
    let effs = actor.process_mqtt_message(&msg(
        "te/device/main///cmd/config_snapshot/1234",
        r#"{"status":"failed","type":"typeA","reason":"boom"}"#,
    ));
    assert!(effs.is_empty());

    // Metadata is not command progress: it passes through at once.
    let effs = actor.process_mqtt_message(&msg(
        "te/device/main///cmd/config_snapshot",
        r#"{"types":["typeA"]}"#,
    ));
    assert!(!effs.is_empty());

    // The timer fires: the buffer is drained in arrival order.
    let effs = actor.process_sync_timeout();
    let pubs = publishes(&effs);
    assert_eq!(pubs[0].1, "501,c8y_UploadConfigFile");
    assert_eq!(pubs[1].1, "502,c8y_UploadConfigFile,\"boom\"");

    // After the window, commands are processed on arrival.
    let effs = actor.process_mqtt_message(&msg(
        "te/device/main///cmd/config_snapshot/1234",
        r#"{"status":"executing","type":"typeA"}"#,
    ));
    assert!(!effs.is_empty());
}

#[test]
fn directory_created_under_ops_root_announces_a_child() {
    let actor = actor();
    let effs = actor.process_file_watch_event(&FsWatchEvent::DirectoryCreated(
        "operations/c8y/child42".to_string(),
    ));
    let pubs = publishes(&effs);
    assert_eq!(pubs.len(), 1);
    assert_eq!(pubs[0].0, "c8y/s/us");
    assert_eq!(pubs[0].1, "101,child42,child42,thin-edge.io-child");

    // A directory elsewhere announces nothing.
    let effs = actor.process_file_watch_event(&FsWatchEvent::DirectoryCreated(
        "somewhere/else/child42".to_string(),
    ));
    assert!(effs.is_empty());

    // Other watcher events belong to other subsystems.
    let effs = actor.process_file_watch_event(&FsWatchEvent::FileCreated(
        "operations/c8y/c8y_Restart".to_string(),
    ));
    assert!(effs.is_empty());
}

#[test]
fn download_failure_ends_the_operation_on_the_cloud_side() {
    let mut actor = actor();
    let frame = "524,test-device,http://www.my.url,typeA";
    let effs = actor.process_mqtt_message(&msg("c8y/s/ds", frame));
    let probe_frame = match &effs[0] {
        Effect::ProbeCache { frame, .. } => frame.clone(),
        _ => panic!("expected a cache probe"),
    };
    let effs = actor.process_cache_result(&probe_frame, false);
    let cmd_id = match &effs[0] {
        Effect::Download { cmd_id, .. } => cmd_id.clone(),
        _ => panic!("expected a download dispatch"),
    };
    let effs = actor.process_download_result(&cmd_id, Err("connection reset"));
    let pubs = publishes(&effs);
    assert_eq!(pubs.len(), 2);
    assert_eq!(pubs[0].1, "501,c8y_DownloadConfigFile");
    assert_eq!(
        pubs[1].1,
        "502,c8y_DownloadConfigFile,\"Download from http://www.my.url failed with connection reset\""
    );
    // The pending entry is gone: a second answer produces nothing.
    let effs = actor.process_download_result(&cmd_id, Err("connection reset"));
    assert!(effs.is_empty());
}

#[test]
fn upload_failure_fails_the_snapshot_operation() {
    let mut actor = actor();
    let effs = actor.process_mqtt_message(&msg(
        "te/device/main///cmd/config_snapshot/77",
        r#"{"status":"successful","type":"typeA"}"#,
    ));
    assert!(matches!(&effs[0], Effect::Upload { .. }));
    let effs = actor.process_upload_result("77", Err("503 service unavailable"));
    let pubs = publishes(&effs);
    assert_eq!(
        pubs[0].1,
        "502,c8y_UploadConfigFile,\"Upload failed with 503 service unavailable\""
    );
    // The clear message follows on the command topic.
    assert_eq!(pubs[1].0, "te/device/main///cmd/config_snapshot/77");
    assert_eq!(pubs[1].1, "");
    assert!(pubs[1].2);
}
