//! The SmartREST and JSON codecs, the derived paths, and the error cases.

use c8y_mapper::converter::cache_path;
use c8y_mapper::converter::C8yMapperConfig;
use c8y_mapper::converter::Capabilities;
use c8y_mapper::converter::CumulocityConverter;
use c8y_mapper::converter::Effect;
use c8y_mapper::converter::MqttMessage;
use c8y_mapper::error::MapperError;
use c8y_mapper::payloads::parse_command_payload;
use c8y_mapper::payloads::parse_types_payload;
use c8y_mapper::payloads::CommandStatus;
use c8y_mapper::smartrest::child_device_creation;
use c8y_mapper::smartrest::parse_record_str;
use c8y_mapper::smartrest::set_operation_executing;
use c8y_mapper::smartrest::set_operation_failed;
use c8y_mapper::smartrest::set_operation_successful;
use c8y_mapper::smartrest::CumulocitySupportedOperations;
use c8y_mapper::text::sort_strings;
use c8y_mapper::topics::command_topic;
use c8y_mapper::topics::config_snapshot_topic_filter;
use c8y_mapper::topics::config_update_topic_filter;
use c8y_mapper::topics::parse_topic;
use c8y_mapper::topics::Channel;
use c8y_mapper::topics::OperationType;
use c8y_mapper::topics::TopicId;

fn converter() -> CumulocityConverter {
    CumulocityConverter::new(C8yMapperConfig {
        device_id: "test-device".to_string(),
        tedge_http_host: "localhost:8888".to_string(),
        data_dir: "ttd".to_string(),
        ops_dir: "operations/c8y".to_string(),
        capabilities: Capabilities { config_snapshot: true, config_update: true },
    })
}

#[test]
fn smartrest_record_splits_on_commas() {
    let fields = parse_record_str("526,test-device,path/config/A").unwrap();
    assert_eq!(fields, vec!["526", "test-device", "path/config/A"]);
}

#[test]
fn smartrest_record_honors_quoting() {
    let fields = parse_record_str("524,dev,\"http://a,b\",typeX").unwrap();
    assert_eq!(fields, vec!["524", "dev", "http://a,b", "typeX"]);

    let fields = parse_record_str("\"he said \"\"hi\"\"\",x").unwrap();
    assert_eq!(fields, vec!["he said \"hi\"", "x"]);
}

#[test]
fn smartrest_record_rejects_malformed_quoting() {
    assert!(parse_record_str("a\"b").is_none());
    assert!(parse_record_str("\"unterminated").is_none());
    assert!(parse_record_str("\"x\"tail,y").is_none());
}

#[test]
fn outbound_frames_take_their_documented_shape() {
    assert_eq!(
        set_operation_executing(CumulocitySupportedOperations::C8yDownloadConfigFile),
        "501,c8y_DownloadConfigFile"
    );
    assert_eq!(
        set_operation_failed(CumulocitySupportedOperations::C8yUploadConfigFile, "a \"b\""),
        "502,c8y_UploadConfigFile,\"a \"\"b\"\"\""
    );
    assert_eq!(
        set_operation_successful(CumulocitySupportedOperations::C8yUploadConfigFile, Some("u")),
        "503,c8y_UploadConfigFile,u"
    );
    assert_eq!(
        set_operation_successful(CumulocitySupportedOperations::C8yDownloadConfigFile, None),
        "503,c8y_DownloadConfigFile"
    );
    assert_eq!(
        child_device_creation("child42"),
        "101,child42,child42,thin-edge.io-child"
    );
}

#[test]
fn command_payloads_parse_with_any_spacing_and_order() {
    let p = parse_command_payload(
        " { \"type\" : \"typeA\" , \"status\" : \"executing\" , \"extra\" : null } ",
    )
    .unwrap();
    assert!(matches!(p.status, CommandStatus::Executing));
    assert_eq!(p.config_type, "typeA");

    let p = parse_command_payload(r#"{"status":"failed","type":"t","reason":"why"}"#).unwrap();
    match p.status {
        CommandStatus::Failed { reason } => assert_eq!(reason, "why"),
        _ => panic!("expected a failed status"),
    }

    // A failed status without a reason carries an empty one.
    let p = parse_command_payload(r#"{"status":"failed","type":"t"}"#).unwrap();
    assert!(matches!(p.status, CommandStatus::Failed { reason } if reason.is_empty()));
}

#[test]
fn command_payloads_reject_unknown_or_missing_fields() {
    assert!(matches!(
        parse_command_payload(r#"{"status":"sideways","type":"t"}"#),
        Err(MapperError::JsonParse)
    ));
    assert!(matches!(
        parse_command_payload(r#"{"status":"init"}"#),
        Err(MapperError::JsonParse)
    ));
    assert!(matches!(
        parse_command_payload("not json"),
        Err(MapperError::JsonParse)
    ));
}

#[test]
fn types_payloads_parse_their_list() {
    assert_eq!(
        parse_types_payload(r#"{"types" : [ "b", "a" ]}"#).unwrap(),
        vec!["b", "a"]
    );
    assert_eq!(parse_types_payload(r#"{"types":[]}"#).unwrap(), Vec::<String>::new());
    assert!(parse_types_payload(r#"{"types":"not-a-list"}"#).is_err());
    assert!(parse_types_payload(r#"{}"#).is_err());
}

#[test]
fn json_strings_in_init_payloads_are_escaped() {
    let conv = converter();
    let effs = conv
        .convert_config_snapshot_request("526,test-device,\"ty\"\"pe\"")
        .unwrap();
    match &effs[0] {
        Effect::Publish(m) => {
            assert!(m.payload.contains("\"type\":\"ty\\\"pe\""));
        }
        _ => panic!("expected the init command"),
    }
}

#[test]
fn cache_keys_are_sha256_hex() {
    // The digest of "hello", as the digest library documents it.
    assert_eq!(
        cache_path("d", "hello"),
        "d/cache/2cf24dba5fb0a30e26e83b2ac5b9e29e1b161e5c1fa7425e73043362938b9824"
    );
    assert_eq!(
        cache_path("d", "http://www.my.url"),
        format!("d/cache/{}", sha256::digest("http://www.my.url"))
    );
}

#[test]
fn minted_command_ids_are_url_safe_tokens() {
    let conv = converter();
    let mut ids = Vec::new();
    for _ in 0..2 {
        let effs = conv.convert_config_snapshot_request("526,test-device,t").unwrap();
        match &effs[0] {
            Effect::Publish(m) => {
                let id = m.topic.rsplit('/').next().unwrap().to_string();
                assert_eq!(id.chars().count(), 21);
                assert!(id
                    .chars()
                    .all(|c| c.is_ascii_alphanumeric() || c == '_' || c == '-'));
                ids.push(id);
            }
            _ => panic!("expected the init command"),
        }
    }
    assert_ne!(ids[0], ids[1], "two minted ids should differ");
}

#[test]
fn unknown_devices_and_bad_frames_are_errors() {
    let mut conv = converter();
    match conv.convert_config_snapshot_request("526,nobody,t") {
        Err(MapperError::UnknownDevice { device_id }) => assert_eq!(device_id, "nobody"),
        _ => panic!("expected an unknown-device error"),
    }
    assert!(matches!(
        conv.convert_config_snapshot_request("526,only-two"),
        Err(MapperError::SmartRestParse)
    ));
    assert!(matches!(
        conv.convert_config_update_request("524,test-device,u", false),
        Err(MapperError::SmartRestParse)
    ));
    let unknown = TopicId { device: "ghost".to_string(), service: String::new() };
    let m = MqttMessage::new(
        "te/device/ghost///cmd/config_update/1".to_string(),
        r#"{"status":"executing","type":"t"}"#.to_string(),
    );
    match conv.handle_config_update_state_change(&unknown, "1", &m) {
        Err(MapperError::UnregisteredDevice { topic_id }) => {
            assert_eq!(topic_id, "device/ghost//");
        }
        _ => panic!("expected an unregistered-device error"),
    }
    assert_eq!(
        MapperError::SmartRestParse.message(),
        "malformed SmartREST request"
    );
}

#[test]
fn snapshot_request_with_a_fixed_id_is_deterministic() {
    let conv = converter();
    let effs = conv
        .convert_config_snapshot_request_with_id("526,test-device,path/config/A", "1234")
        .unwrap();
    assert_eq!(effs.len(), 1);
    match &effs[0] {
        Effect::Publish(m) => {
            assert_eq!(m.topic, "te/device/main///cmd/config_snapshot/1234");
            assert!(m.retain);
            assert_eq!(
                m.payload,
                "{\"status\":\"init\",\"tedgeUrl\":\"http://localhost:8888/tedge/file-transfer/test-device/config_snapshot/path:config:A-1234\",\"type\":\"path/config/A\"}"
            );
        }
        _ => panic!("expected the init command"),
    }
}

#[test]
fn update_request_with_a_fixed_id_hits_the_cache() {
    let mut conv = converter();
    let effs = conv
        .convert_config_update_request_with_id("524,test-device,http://www.my.url,typeA", true, "1234")
        .unwrap();
    assert_eq!(effs.len(), 2);
    match &effs[0] {
        Effect::CreateSymlink { link, target } => {
            assert_eq!(link, "ttd/file-transfer/test-device/config_update/typeA-1234");
            assert_eq!(
                target,
                &format!("ttd/cache/{}", sha256::digest("http://www.my.url"))
            );
        }
        _ => panic!("expected a symlink"),
    }
}

#[test]
fn the_first_registration_of_a_key_wins() {
    let mut conv = converter();
    // The main device's external id is taken at construction.
    assert!(matches!(
        conv.convert_config_snapshot_request("526,test-device,t"),
        Ok(_)
    ));
    // A second entity cannot claim the same external id.
    let twin = c8y_mapper::entity::Entity {
        topic_id: TopicId { device: "imposter".to_string(), service: String::new() },
        external_id: "test-device".to_string(),
        entity_type: c8y_mapper::entity::EntityType::ChildDevice,
        parent: None,
    };
    assert!(!conv.entity_store.upsert(twin));
    // Nor can a second entry claim a taken topic id.
    let again = c8y_mapper::entity::Entity {
        topic_id: TopicId { device: "main".to_string(), service: String::new() },
        external_id: "someone-else".to_string(),
        entity_type: c8y_mapper::entity::EntityType::ChildDevice,
        parent: None,
    };
    assert!(!conv.entity_store.upsert(again));
}

#[test]
fn sorting_is_lexicographic_by_code_point() {
    let sorted = sort_strings(vec![
        "b".to_string(),
        "B".to_string(),
        "a".to_string(),
        "b".to_string(),
    ]);
    assert_eq!(sorted, vec!["B", "a", "b", "b"]);
}

#[test]
fn topic_construction_and_parsing_are_inverse() {
    let tid = TopicId { device: "child1".to_string(), service: String::new() };
    let topic = command_topic(&tid, OperationType::ConfigUpdate, "xyz");
    assert_eq!(topic, "te/device/child1///cmd/config_update/xyz");
    let (parsed, channel) = parse_topic(&topic).unwrap();
    assert!(parsed.same(&tid));
    match channel {
        Channel::Command { operation, cmd_id } => {
            assert_eq!(operation, OperationType::ConfigUpdate);
            assert_eq!(cmd_id, "xyz");
        }
        _ => panic!("expected a command channel"),
    }

    let svc = TopicId { device: "main".to_string(), service: "mosquitto".to_string() };
    let topic = command_topic(&svc, OperationType::ConfigSnapshot, "1");
    assert_eq!(topic, "te/device/main/service/mosquitto/cmd/config_snapshot/1");
    let (parsed, _) = parse_topic(&topic).unwrap();
    assert!(parsed.same(&svc));
}

#[test]
fn topics_outside_the_grammar_are_ignored() {
    assert!(parse_topic("c8y/s/us").is_none());
    assert!(parse_topic("te/device/main").is_none());
    assert!(parse_topic("te/device/main/oops/x").is_none());
    // An operation this engine does not drive falls to the wider system.
    let (_, channel) = parse_topic("te/device/main///cmd/restart/9").unwrap();
    assert!(matches!(channel, Channel::Other));
    // The entity root is a registration channel.
    let (_, channel) = parse_topic("te/device/main//").unwrap();
    assert!(matches!(channel, Channel::EntityRegistration));
}

#[test]
fn topic_filters_cover_commands_and_metadata() {
    assert_eq!(
        config_snapshot_topic_filter(),
        vec![
            "te/+/+/+/+/cmd/config_snapshot".to_string(),
            "te/+/+/+/+/cmd/config_snapshot/+".to_string(),
        ]
    );
    assert_eq!(
        config_update_topic_filter(),
        vec![
            "te/+/+/+/+/cmd/config_update".to_string(),
            "te/+/+/+/+/cmd/config_update/+".to_string(),
        ]
    );
}
