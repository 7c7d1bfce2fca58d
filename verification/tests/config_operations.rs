//! The config snapshot and config update flows, end to end through the
//! mapper: metadata, cloud requests, command progress, downloads and uploads.

use c8y_mapper::actor::C8yMapperActor;
use c8y_mapper::converter::C8yMapperConfig;
use c8y_mapper::converter::Capabilities;
use c8y_mapper::converter::CumulocityConverter;
use c8y_mapper::converter::Effect;
use c8y_mapper::converter::MqttMessage;

const DATA: &str = "ttd";
const OPS: &str = "operations/c8y";

fn test_actor() -> C8yMapperActor {
    let config = C8yMapperConfig {
        device_id: "test-device".to_string(),
        tedge_http_host: "localhost:8888".to_string(),
        data_dir: DATA.to_string(),
        ops_dir: OPS.to_string(),
        capabilities: Capabilities { config_snapshot: true, config_update: true },
    };
    C8yMapperActor::new(CumulocityConverter::new(config))
}

fn msg(topic: &str, payload: &str) -> MqttMessage {
    MqttMessage::new(topic.to_string(), payload.to_string())
}

/// The `(topic, payload, retain)` of every publish among the effects.
fn publishes(effs: &[Effect]) -> Vec<(String, String, bool)> {
    let mut out = Vec::new();
    for e in effs {
        if let Effect::Publish(m) = e {
            out.push((m.topic.clone(), m.payload.clone(), m.retain));
        }
    }
    out
}

fn has_publish(effs: &[Effect], topic: &str, payload: &str) -> bool {
    publishes(effs).iter().any(|(t, p, _)| t == topic && p == payload)
}

fn has_file(effs: &[Effect], path: &str) -> bool {
    effs.iter().any(|e| matches!(e, Effect::CreateFile { path: p } if p == path))
}

fn register_child1(actor: &mut C8yMapperActor) {
    let effs = actor.process_mqtt_message(&msg(
        "te/device/child1//",
        r#"{ "@type":"child-device", "@id":"child1" }"#,
    ));
    assert!(effs.is_empty());
}

/// The last topic segment: the command id the mapper minted.
fn cmd_id_of(topic: &str) -> String {
    topic.rsplit('/').next().unwrap().to_string()
}

#[test]
fn mapper_converts_config_metadata_to_supported_op_and_types_for_main_device() {
    let mut actor = test_actor();

    let effs = actor.process_mqtt_message(&msg(
        "te/device/main///cmd/config_snapshot",
        r#"{"types" : [ "typeA", "typeB", "typeC" ]}"#,
    ));
    assert!(has_publish(&effs, "c8y/s/us", "119,typeA,typeB,typeC"));
    assert!(has_file(&effs, "operations/c8y/c8y_UploadConfigFile"));

    let effs = actor.process_mqtt_message(&msg(
        "te/device/main///cmd/config_update",
        r#"{"types" : [ "typeD", "typeE", "typeF" ]}"#,
    ));
    assert!(has_publish(&effs, "c8y/s/us", "119,typeD,typeE,typeF"));
    assert!(has_file(&effs, "operations/c8y/c8y_DownloadConfigFile"));
}

#[test]
fn mapper_converts_config_cmd_to_supported_op_and_types_for_child_device() {
    let mut actor = test_actor();

    // The unknown child is auto-registered under a derived external id.
    let effs = actor.process_mqtt_message(&msg(
        "te/device/child1///cmd/config_snapshot",
        r#"{"types" : [ "typeA", "typeB", "typeC" ]}"#,
    ));
    assert!(has_publish(
        &effs,
        "c8y/s/us/test-device:device:child1",
        "119,typeA,typeB,typeC"
    ));
    assert!(has_file(
        &effs,
        "operations/c8y/test-device:device:child1/c8y_UploadConfigFile"
    ));

    let effs = actor.process_mqtt_message(&msg(
        "te/device/child1///cmd/config_update",
        r#"{"types" : [ "typeD", "typeE", "typeF" ]}"#,
    ));
    assert!(has_publish(
        &effs,
        "c8y/s/us/test-device:device:child1",
        "119,typeD,typeE,typeF"
    ));
    assert!(has_file(
        &effs,
        "operations/c8y/test-device:device:child1/c8y_DownloadConfigFile"
    ));
}

#[test]
fn mapper_converts_smartrest_config_upload_req_to_config_snapshot_cmd_for_main_device() {
    let mut actor = test_actor();

    let effs = actor.process_mqtt_message(&msg("c8y/s/ds", "526,test-device,path/config/A"));
    let pubs = publishes(&effs);
    assert_eq!(pubs.len(), 1);
    let (topic, payload, retain) = &pubs[0];
    assert!(retain);
    assert!(topic.starts_with("te/device/main///cmd/config_snapshot/"));
    let cmd_id = cmd_id_of(topic);
    let expected = format!(
        "{{\"status\":\"init\",\"tedgeUrl\":\"http://localhost:8888/tedge/file-transfer/test-device/config_snapshot/path:config:A-{cmd_id}\",\"type\":\"path/config/A\"}}"
    );
    assert_eq!(payload, &expected);
}

#[test]
fn mapper_converts_smartrest_config_upload_req_to_config_snapshot_cmd_for_child_device() {
    let mut actor = test_actor();
    register_child1(&mut actor);

    let effs = actor.process_mqtt_message(&msg("c8y/s/ds", "526,child1,configA"));
    let pubs = publishes(&effs);
    assert_eq!(pubs.len(), 1);
    let (topic, payload, retain) = &pubs[0];
    assert!(retain);
    assert!(topic.starts_with("te/device/child1///cmd/config_snapshot/"));
    let cmd_id = cmd_id_of(topic);
    let expected = format!(
        "{{\"status\":\"init\",\"tedgeUrl\":\"http://localhost:8888/tedge/file-transfer/child1/config_snapshot/configA-{cmd_id}\",\"type\":\"configA\"}}"
    );
    assert_eq!(payload, &expected);
}

#[test]
fn handle_config_snapshot_executing_and_failed_cmd_for_main_device() {
    let mut actor = test_actor();

    let effs = actor.process_mqtt_message(&msg(
        "te/device/main///cmd/config_snapshot/1234",
        r#"{"status":"executing","tedgeUrl":"http://localhost:8888/tedge/file-transfer/test-device/config_snapshot/typeA-1234","type":"typeA"}"#,
    ));
    assert!(has_publish(&effs, "c8y/s/us", "501,c8y_UploadConfigFile"));

    let effs = actor.process_mqtt_message(&msg(
        "te/device/main///cmd/config_snapshot/1234",
        r#"{"status":"failed","tedgeUrl":"http://localhost:8888/tedge/file-transfer/test-device/config_snapshot/typeA-1234","type":"typeA","reason":"Something went wrong"}"#,
    ));
    assert!(has_publish(
        &effs,
        "c8y/s/us",
        "502,c8y_UploadConfigFile,\"Something went wrong\""
    ));
}

#[test]
fn handle_config_snapshot_executing_and_failed_cmd_for_child_device() {
    let mut actor = test_actor();
    register_child1(&mut actor);

    let effs = actor.process_mqtt_message(&msg(
        "te/device/child1///cmd/config_snapshot/1234",
        r#"{"status":"executing","tedgeUrl":"http://localhost:8888/tedge/file-transfer/child1/config_snapshot/typeA-1234","type":"typeA"}"#,
    ));
    assert!(has_publish(&effs, "c8y/s/us/child1", "501,c8y_UploadConfigFile"));

    let effs = actor.process_mqtt_message(&msg(
        "te/device/child1///cmd/config_snapshot/1234",
        r#"{"status":"failed","tedgeUrl":"http://localhost:8888/tedge/file-transfer/child1/config_snapshot/typeA-1234","type":"typeA","reason":"Something went wrong"}"#,
    ));
    assert!(has_publish(
        &effs,
        "c8y/s/us/child1",
        "502,c8y_UploadConfigFile,\"Something went wrong\""
    ));
}

#[test]
fn handle_config_snapshot_successful_cmd_for_main_device() {
    let mut actor = test_actor();

    let effs = actor.process_mqtt_message(&msg(
        "te/device/main///cmd/config_snapshot/1234",
        r#"{"status":"successful","tedgeUrl":"http://localhost:8888/tedge/file-transfer/test-device/config_snapshot/path:type:A-1234","type":"path/type/A"}"#,
    ));
    // The staged file is uploaded out of band; the answer comes back in.
    assert_eq!(effs.len(), 1);
    match &effs[0] {
        Effect::Upload { cmd_id, file_path, config_type, external_id } => {
            assert_eq!(cmd_id, "1234");
            assert_eq!(
                file_path,
                &format!("{DATA}/file-transfer/test-device/config_snapshot/path:type:A-1234")
            );
            assert_eq!(config_type, "path/type/A");
            assert_eq!(external_id, "test-device");
        }
        _ => panic!("expected an upload effect"),
    }
    let effs = actor.process_upload_result("1234", Ok("http://c8y-binary.url"));
    assert!(has_publish(
        &effs,
        "c8y/s/us",
        "503,c8y_UploadConfigFile,http://c8y-binary.url"
    ));
    // The retained command is cleared afterwards.
    let pubs = publishes(&effs);
    assert_eq!(pubs[1].0, "te/device/main///cmd/config_snapshot/1234");
    assert_eq!(pubs[1].1, "");
    assert!(pubs[1].2);
}

#[test]
fn handle_config_snapshot_successful_cmd_for_child_device() {
    let mut actor = test_actor();
    register_child1(&mut actor);

    let effs = actor.process_mqtt_message(&msg(
        "te/device/child1///cmd/config_snapshot/1234",
        r#"{"status":"successful","tedgeUrl":"http://localhost:8888/tedge/file-transfer/child1/config_snapshot/typeA-1234","type":"typeA"}"#,
    ));
    assert_eq!(effs.len(), 1);
    assert!(matches!(&effs[0], Effect::Upload { .. }));

    let effs = actor.process_upload_result("1234", Ok("http://c8y-binary.url"));
    assert!(has_publish(
        &effs,
        "c8y/s/us/child1",
        "503,c8y_UploadConfigFile,http://c8y-binary.url"
    ));
}

#[test]
fn mapper_converts_smartrest_config_download_req_with_new_download_for_main_device() {
    let mut actor = test_actor();

    let frame = "524,test-device,http://www.my.url,path/config/A";
    let effs = actor.process_mqtt_message(&msg("c8y/s/ds", frame));
    assert_eq!(effs.len(), 1);
    let (probe_path, probe_frame) = match &effs[0] {
        Effect::ProbeCache { path, frame } => (path.clone(), frame.clone()),
        _ => panic!("expected a cache probe"),
    };
    let cache = format!("{DATA}/cache/{}", sha256::digest("http://www.my.url"));
    assert_eq!(probe_path, cache);
    assert_eq!(probe_frame, frame);

    // Cache miss: the download is dispatched and nothing is published yet.
    let effs = actor.process_cache_result(&probe_frame, false);
    assert_eq!(effs.len(), 1);
    let cmd_id = match &effs[0] {
        Effect::Download { cmd_id, url, dest } => {
            assert_eq!(url, "http://www.my.url");
            assert_eq!(dest, &cache);
            cmd_id.clone()
        }
        _ => panic!("expected a download dispatch"),
    };

    // The download finished: symlink plus retained init command.
    let effs = actor.process_download_result(&cmd_id, Ok(&cache));
    assert_eq!(effs.len(), 2);
    match &effs[0] {
        Effect::CreateSymlink { link, target } => {
            assert_eq!(
                link,
                &format!("{DATA}/file-transfer/test-device/config_update/path:config:A-{cmd_id}")
            );
            assert_eq!(target, &cache);
        }
        _ => panic!("expected a symlink"),
    }
    match &effs[1] {
        Effect::Publish(m) => {
            assert_eq!(m.topic, format!("te/device/main///cmd/config_update/{cmd_id}"));
            assert!(m.retain);
            let expected = format!(
                "{{\"status\":\"init\",\"tedgeUrl\":\"http://localhost:8888/tedge/file-transfer/test-device/config_update/path:config:A-{cmd_id}\",\"remoteUrl\":\"http://www.my.url\",\"type\":\"path/config/A\"}}"
            );
            assert_eq!(m.payload, expected);
        }
        _ => panic!("expected the init command"),
    }
}

#[test]
fn mapper_converts_smartrest_config_download_req_without_new_download_for_child_device() {
    let mut actor = test_actor();
    register_child1(&mut actor);

    let frame = "524,child1,http://www.my.url,configA";
    let effs = actor.process_mqtt_message(&msg("c8y/s/ds", frame));
    assert_eq!(effs.len(), 1);
    let probe_frame = match &effs[0] {
        Effect::ProbeCache { frame, .. } => frame.clone(),
        _ => panic!("expected a cache probe"),
    };

    // Cache hit: no download; symlink and init command in the same step.
    let effs = actor.process_cache_result(&probe_frame, true);
    assert_eq!(effs.len(), 2);
    assert!(!effs.iter().any(|e| matches!(e, Effect::Download { .. })));
    let cache = format!("{DATA}/cache/{}", sha256::digest("http://www.my.url"));
    let cmd_id = match &effs[1] {
        Effect::Publish(m) => cmd_id_of(&m.topic),
        _ => panic!("expected the init command"),
    };
    match &effs[0] {
        Effect::CreateSymlink { link, target } => {
            assert_eq!(
                link,
                &format!("{DATA}/file-transfer/child1/config_update/configA-{cmd_id}")
            );
            assert_eq!(target, &cache);
        }
        _ => panic!("expected a symlink"),
    }
    match &effs[1] {
        Effect::Publish(m) => {
            assert_eq!(m.topic, format!("te/device/child1///cmd/config_update/{cmd_id}"));
            assert!(m.retain);
            let expected = format!(
                "{{\"status\":\"init\",\"tedgeUrl\":\"http://localhost:8888/tedge/file-transfer/child1/config_update/configA-{cmd_id}\",\"remoteUrl\":\"http://www.my.url\",\"type\":\"configA\"}}"
            );
            assert_eq!(m.payload, expected);
        }
        _ => panic!("expected the init command"),
    }
}

#[test]
fn handle_config_update_executing_and_failed_cmd_for_main_device() {
    let mut actor = test_actor();

    let effs = actor.process_mqtt_message(&msg(
        "te/device/main///cmd/config_update/1234",
        r#"{"status":"executing","tedgeUrl":"http://localhost:8888/tedge/file-transfer/test-device/config_update/typeA-1234","remoteUrl":"http://www.my.url","type":"typeA"}"#,
    ));
    assert!(has_publish(&effs, "c8y/s/us", "501,c8y_DownloadConfigFile"));

    let effs = actor.process_mqtt_message(&msg(
        "te/device/main///cmd/config_update/1234",
        r#"{"status":"failed","tedgeUrl":"http://localhost:8888/tedge/file-transfer/test-device/config_update/typeA-1234","remoteUrl":"http://www.my.url","type":"typeA","reason":"Something went wrong"}"#,
    ));
    assert!(has_publish(
        &effs,
        "c8y/s/us",
        "502,c8y_DownloadConfigFile,\"Something went wrong\""
    ));
    // The retained command is cleared.
    assert!(publishes(&effs)
        .iter()
        .any(|(t, p, r)| t == "te/device/main///cmd/config_update/1234" && p == "" && *r));
    // The symlink is removed on the terminal transition.
    assert!(effs.iter().any(|e| matches!(
        e,
        Effect::RemoveSymlink { path }
            if path == &format!("{DATA}/file-transfer/test-device/config_update/typeA-1234")
    )));
}

#[test]
fn handle_config_update_executing_and_failed_cmd_for_child_device() {
    let mut actor = test_actor();
    register_child1(&mut actor);

    let effs = actor.process_mqtt_message(&msg(
        "te/device/child1///cmd/config_update/1234",
        r#"{"status":"executing","tedgeUrl":"http://localhost:8888/tedge/file-transfer/child1/config_update/typeA-1234","remoteUrl":"http://www.my.url","type":"typeA"}"#,
    ));
    assert!(has_publish(&effs, "c8y/s/us/child1", "501,c8y_DownloadConfigFile"));

    let effs = actor.process_mqtt_message(&msg(
        "te/device/child1///cmd/config_update/1234",
        r#"{"status":"failed","tedgeUrl":"http://localhost:8888/tedge/file-transfer/child1/config_update/typeA-1234","remoteUrl":"http://www.my.url","type":"typeA","reason":"Something went wrong"}"#,
    ));
    assert!(has_publish(
        &effs,
        "c8y/s/us/child1",
        "502,c8y_DownloadConfigFile,\"Something went wrong\""
    ));
}

#[test]
fn handle_config_update_successful_cmd_for_main_device() {
    let mut actor = test_actor();

    let effs = actor.process_mqtt_message(&msg(
        "te/device/main///cmd/config_update/1234",
        r#"{"status":"successful","tedgeUrl":"http://localhost:8888/tedge/file-transfer/test-device/config_update/path:type:A-1234","remoteUrl":"http://www.my.url","type":"path/type/A"}"#,
    ));
    assert!(has_publish(&effs, "c8y/s/us", "503,c8y_DownloadConfigFile"));
    assert!(effs.iter().any(|e| matches!(
        e,
        Effect::RemoveSymlink { path }
            if path == &format!("{DATA}/file-transfer/test-device/config_update/path:type:A-1234")
    )));
}

#[test]
fn handle_config_update_successful_cmd_for_child_device() {
    let mut actor = test_actor();
    register_child1(&mut actor);

    let effs = actor.process_mqtt_message(&msg(
        "te/device/child1///cmd/config_update/1234",
        r#"{"status":"successful","tedgeUrl":"http://localhost:8888/tedge/file-transfer/child1/config_update/typeA-1234","remoteUrl":"http://www.my.url","type":"typeA"}"#,
    ));
    assert!(has_publish(&effs, "c8y/s/us/child1", "503,c8y_DownloadConfigFile"));
}
