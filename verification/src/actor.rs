//! The mapper's decision core: one entity store, auto-registration before
//! every dispatch, a bounded synchronization window at startup, and the
//! routing of inbound events to the converter.
//!
//! An unverified shell runs the event loop: it feeds every inbound event to
//! these entry points, in arrival order, and executes the effects they
//! return, in order.

use vstd::prelude::*;
use vstd::string::*;

use crate::converter::ConfigView;
use crate::converter::CumulocityConverter;
use crate::converter::Effect;
use crate::converter::EffectView;
use crate::converter::MqttMessage;
use crate::converter::MqttMessageView;
use crate::converter::QoS;
use crate::converter::UploadTicket;
use crate::converter::effects_view;
use crate::converter::spec_cache_path;
use crate::converter::spec_download_result_outcome;
use crate::converter::spec_finish_upload_outcome;
use crate::converter::spec_metadata_outcome;
use crate::converter::spec_result_view;
use crate::converter::spec_sm_message;
use crate::converter::spec_snapshot_request_outcome;
use crate::converter::spec_snapshot_state_outcome;
use crate::converter::spec_update_request_outcome;
use crate::converter::spec_update_state_outcome;
use crate::entity::Entity;
use crate::entity::EntityType;
use crate::entity::EntityView;
use crate::entity::spec_find_by_external;
use crate::entity::spec_find_by_topic;
use crate::entity::spec_upserted;
use crate::error::MapperError;
use crate::json::JsonValue;
use crate::json::JsonValueView;
use crate::json::spec_lookup;
use crate::json::spec_parse_object;
use crate::smartrest::CumulocitySupportedOperations;
use crate::smartrest::SmartRestConfigDownloadRequest;
use crate::smartrest::parse_record;
use crate::smartrest::spec_child_creation_frame;
use crate::text::join_seq;
use crate::text::split_seq;
use crate::text::str_eq;
use crate::topics::Channel;
use crate::topics::ChannelView;
use crate::topics::OperationType;
use crate::topics::TopicId;
use crate::topics::spec_parse_topic;

verus! {

/// Where the mapper stands in its startup lifecycle.
#[derive(Clone, Copy, PartialEq, Eq, Structural, Debug)]
pub enum Phase {
    /// Created, not yet started.
    Starting,
    /// Inside the synchronization window: retained command messages replayed
    /// by the broker are buffered.
    Syncing,
    /// The window closed; everything is processed on arrival.
    Ready,
}

/// A file-system watcher event under the operations root.
pub enum FsWatchEvent {
    DirectoryCreated(String),
    FileCreated(String),
    FileDeleted(String),
    Modified(String),
    DirectoryDeleted(String),
}

/// The view of an [`FsWatchEvent`].
pub enum FsWatchEventView {
    DirectoryCreated(Seq<char>),
    FileCreated(Seq<char>),
    FileDeleted(Seq<char>),
    Modified(Seq<char>),
    DirectoryDeleted(Seq<char>),
}

impl View for FsWatchEvent {
    type V = FsWatchEventView;

    open spec fn view(&self) -> FsWatchEventView {
        match self {
            FsWatchEvent::DirectoryCreated(p) => FsWatchEventView::DirectoryCreated(p@),
            FsWatchEvent::FileCreated(p) => FsWatchEventView::FileCreated(p@),
            FsWatchEvent::FileDeleted(p) => FsWatchEventView::FileDeleted(p@),
            FsWatchEvent::Modified(p) => FsWatchEventView::Modified(p@),
            FsWatchEvent::DirectoryDeleted(p) => FsWatchEventView::DirectoryDeleted(p@),
        }
    }
}

/// Everything the mapper's event loop can receive.
pub enum C8yMapperInput {
    MqttMessage(MqttMessage),
    FsWatchEvent(FsWatchEvent),
    SyncComplete,
}

/// The views of the buffered messages.
pub open spec fn msgs_view(v: Seq<MqttMessage>) -> Seq<MqttMessageView> {
    v.map_values(|m: MqttMessage| m@)
}

// ---------------------------------------------------------------------------
// Auto-registration
// ---------------------------------------------------------------------------
/// The external id derived for an auto-registered entity.
pub open spec fn spec_derived_external_id(
    main_ext: Seq<char>,
    device: Seq<char>,
    service: Seq<char>,
) -> Seq<char> {
    if service.len() == 0 {
        main_ext + ":device:"@ + device
    } else {
        main_ext + ":device:"@ + device + ":service:"@ + service
    }
}

/// The registration message synthesized for an unknown device.
pub open spec fn spec_device_register_message(device: Seq<char>) -> MqttMessageView {
    MqttMessageView {
        topic: "te/device/"@ + device,
        payload: "{\"@type\":\"device\",\"type\":\"Gateway\"}"@,
        retain: false,
        qos: QoS::AtLeastOnce,
    }
}

/// The registration message synthesized for an unknown service.
pub open spec fn spec_service_register_message(
    device: Seq<char>,
    service: Seq<char>,
) -> MqttMessageView {
    MqttMessageView {
        topic: "te/device/"@ + device + "/service/"@ + service,
        payload: "{\"@type\":\"service\",\"type\":\"systemd\"}"@,
        retain: false,
        qos: QoS::AtLeastOnce,
    }
}

/// The store entry synthesized for an unknown device.
pub open spec fn spec_auto_device_entity(main_ext: Seq<char>, device: Seq<char>) -> EntityView {
    EntityView {
        topic_id: (device, Seq::<char>::empty()),
        external_id: spec_derived_external_id(main_ext, device, Seq::<char>::empty()),
        entity_type: EntityType::ChildDevice,
        parent: Some(("main"@, Seq::<char>::empty())),
    }
}

/// The store entry synthesized for an unknown service.
pub open spec fn spec_auto_service_entity(
    main_ext: Seq<char>,
    device: Seq<char>,
    service: Seq<char>,
) -> EntityView {
    EntityView {
        topic_id: (device, service),
        external_id: spec_derived_external_id(main_ext, device, service),
        entity_type: EntityType::Service,
        parent: Some((device, Seq::<char>::empty())),
    }
}

/// The registration messages published for an unknown entity: the device
/// first, then, for a service topic, the service.
pub open spec fn spec_registration_effects(t: (Seq<char>, Seq<char>)) -> Seq<EffectView> {
    if t.1.len() == 0 {
        seq![EffectView::Publish(spec_device_register_message(t.0))]
    } else {
        seq![
            EffectView::Publish(spec_device_register_message(t.0)),
            EffectView::Publish(spec_service_register_message(t.0, t.1)),
        ]
    }
}

/// The store after auto-registering an unknown entity.
pub open spec fn spec_auto_registered_store(
    main_ext: Seq<char>,
    store: Seq<EntityView>,
    t: (Seq<char>, Seq<char>),
) -> Seq<EntityView> {
    if t.1.len() == 0 {
        spec_upserted(store, spec_auto_device_entity(main_ext, t.0))
    } else {
        spec_upserted(
            spec_upserted(store, spec_auto_device_entity(main_ext, t.0)),
            spec_auto_service_entity(main_ext, t.0, t.1),
        )
    }
}

/// What precedes the converted output of a message: nothing for a known
/// entity, the registration messages for an unknown one.
pub open spec fn spec_reg_prefix(store: Seq<EntityView>, t: (Seq<char>, Seq<char>)) -> Seq<
    EffectView,
> {
    if spec_find_by_topic(store, t) is Some {
        Seq::<EffectView>::empty()
    } else {
        spec_registration_effects(t)
    }
}

/// The store once a message's entity is known: unchanged, or auto-registered.
pub open spec fn spec_store_after_auto(
    main_ext: Seq<char>,
    store: Seq<EntityView>,
    t: (Seq<char>, Seq<char>),
) -> Seq<EntityView> {
    if spec_find_by_topic(store, t) is Some {
        store
    } else {
        spec_auto_registered_store(main_ext, store, t)
    }
}

// ---------------------------------------------------------------------------
// Explicit registration messages
// ---------------------------------------------------------------------------
/// What an explicit registration payload declares: the entity kind and, when
/// given, the `@id` it asks for.
pub open spec fn spec_registration_kind(payload: Seq<char>) -> Option<
    (EntityType, Option<Seq<char>>),
> {
    match spec_parse_object(payload) {
        None => None,
        Some(ms) => match spec_lookup(ms, "@type"@) {
            Some(JsonValueView::Str(k)) => {
                if k == "child-device"@ || k == "device"@ {
                    Some(
                        (
                            EntityType::ChildDevice,
                            match spec_lookup(ms, "@id"@) {
                                Some(JsonValueView::Str(x)) => Some(x),
                                _ => None,
                            },
                        ),
                    )
                } else if k == "service"@ {
                    Some(
                        (
                            EntityType::Service,
                            match spec_lookup(ms, "@id"@) {
                                Some(JsonValueView::Str(x)) => Some(x),
                                _ => None,
                            },
                        ),
                    )
                } else {
                    None
                }
            },
            _ => None,
        },
    }
}

/// The store entry an explicit registration produces.
pub open spec fn spec_registered_entity(
    main_ext: Seq<char>,
    t: (Seq<char>, Seq<char>),
    kind: EntityType,
    ext: Option<Seq<char>>,
) -> EntityView {
    EntityView {
        topic_id: t,
        external_id: match ext {
            Some(x) => x,
            None => spec_derived_external_id(main_ext, t.0, t.1),
        },
        entity_type: kind,
        parent: if kind == EntityType::Service {
            Some((t.0, Seq::<char>::empty()))
        } else {
            Some(("main"@, Seq::<char>::empty()))
        },
    }
}

// ---------------------------------------------------------------------------
// Step specifications
// ---------------------------------------------------------------------------
/// A converter result collapsed as the event loop sees it: errors are logged
/// by the shell and produce no effects.
pub open spec fn spec_collapse(r: Result<Seq<EffectView>, MapperError>) -> Seq<EffectView> {
    match r {
        Ok(effs) => effs,
        Err(_) => Seq::<EffectView>::empty(),
    }
}

/// What a `524` frame causes at the mapper: a probe of the cache entry the
/// URL is stored under, carrying the frame so the answer can resume it; or
/// nothing when the request is gated, malformed or for an unknown device.
pub open spec fn spec_probe_effects(
    cv: ConfigView,
    store: Seq<EntityView>,
    payload: Seq<char>,
) -> Seq<EffectView> {
    if !cv.config_update {
        Seq::<EffectView>::empty()
    } else {
        match crate::smartrest::spec_download_request(payload) {
            None => Seq::<EffectView>::empty(),
            Some(req) => if spec_find_by_external(store, req.0) is Some {
                seq![
                    EffectView::ProbeCache {
                        path: spec_cache_path(cv.data_dir, req.1),
                        frame: payload,
                    },
                ]
            } else {
                Seq::<EffectView>::empty()
            },
        }
    }
}

/// How a frame on the cloud downstream topic is handled.
pub open spec fn spec_downstream_step(
    cv: ConfigView,
    store: Seq<EntityView>,
    ul0: Seq<(Seq<char>, UploadTicket)>,
    ul1: Seq<(Seq<char>, UploadTicket)>,
    payload: Seq<char>,
    effs: Seq<EffectView>,
) -> bool {
    &&& ul1 == ul0
    &&& match parse_record(payload) {
        None => effs == Seq::<EffectView>::empty(),
        Some(fs) => {
            if fs.len() > 0 && fs[0] == "526"@ {
                exists|rr: Result<Seq<EffectView>, MapperError>|
                    #![auto]
                    spec_snapshot_request_outcome(cv, store, payload, rr) && effs == spec_collapse(
                        rr,
                    )
            } else if fs.len() > 0 && fs[0] == "524"@ {
                effs == spec_probe_effects(cv, store, payload)
            } else {
                effs == Seq::<EffectView>::empty()
            }
        },
    }
}

/// How the channel part of an edge-bus message is handled, once its entity
/// is registered.
pub open spec fn spec_channel_step(
    cv: ConfigView,
    store1: Seq<EntityView>,
    dl0: Seq<(Seq<char>, SmartRestConfigDownloadRequest)>,
    dl1: Seq<(Seq<char>, SmartRestConfigDownloadRequest)>,
    ul0: Seq<(Seq<char>, UploadTicket)>,
    ul1: Seq<(Seq<char>, UploadTicket)>,
    buf0: Seq<MqttMessageView>,
    buf1: Seq<MqttMessageView>,
    phase: Phase,
    t: (Seq<char>, Seq<char>),
    ch: ChannelView,
    msg: MqttMessageView,
    converted: Seq<EffectView>,
) -> bool {
    match ch {
        ChannelView::Command { operation, cmd_id } => {
            if phase == Phase::Syncing {
                &&& converted == Seq::<EffectView>::empty()
                &&& buf1 == buf0.push(msg)
                &&& dl1 == dl0
                &&& ul1 == ul0
            } else {
                &&& buf1 == buf0
                &&& dl1 == dl0
                &&& match operation {
                    OperationType::ConfigSnapshot => exists|
                        rr: Result<Seq<EffectView>, MapperError>,
                    |
                        #![auto]
                        spec_snapshot_state_outcome(cv, store1, ul0, ul1, t, cmd_id, msg, rr)
                            && converted == spec_collapse(rr),
                    OperationType::ConfigUpdate => ul1 == ul0 && exists|
                        rr: Result<Seq<EffectView>, MapperError>,
                    |
                        #![auto]
                        spec_update_state_outcome(cv, store1, t, cmd_id, msg, rr) && converted
                            == spec_collapse(rr),
                }
            }
        },
        ChannelView::CommandMetadata { operation } => {
            &&& buf1 == buf0
            &&& dl1 == dl0
            &&& ul1 == ul0
            &&& match operation {
                OperationType::ConfigSnapshot => if cv.config_snapshot {
                    exists|rr: Result<Seq<EffectView>, MapperError>|
                        #![auto]
                        spec_metadata_outcome(
                            cv,
                            store1,
                            t,
                            msg.payload,
                            CumulocitySupportedOperations::C8yUploadConfigFile,
                            rr,
                        ) && converted == spec_collapse(rr)
                } else {
                    converted == Seq::<EffectView>::empty()
                },
                OperationType::ConfigUpdate => if cv.config_update {
                    exists|rr: Result<Seq<EffectView>, MapperError>|
                        #![auto]
                        spec_metadata_outcome(
                            cv,
                            store1,
                            t,
                            msg.payload,
                            CumulocitySupportedOperations::C8yDownloadConfigFile,
                            rr,
                        ) && converted == spec_collapse(rr)
                } else {
                    converted == Seq::<EffectView>::empty()
                },
            }
        },
        ChannelView::Other => {
            &&& converted == Seq::<EffectView>::empty()
            &&& buf1 == buf0
            &&& dl1 == dl0
            &&& ul1 == ul0
        },
        ChannelView::EntityRegistration => false,
    }
}

/// The whole one-message step: what one inbound MQTT message does to the
/// mapper and what it emits.
pub open spec fn spec_mqtt_step(
    pre: C8yMapperActor,
    post: C8yMapperActor,
    msg: MqttMessageView,
    effs: Seq<EffectView>,
) -> bool {
    &&& post.phase == pre.phase
    &&& post.converter.config == pre.converter.config
    &&& (pre.phase != Phase::Syncing ==> post.sync_buffer == pre.sync_buffer)
    &&& match spec_parse_topic(msg.topic) {
        None => {
            &&& post.converter.entity_store == pre.converter.entity_store
            &&& post.sync_buffer == pre.sync_buffer
            &&& post.converter.pending_downloads == pre.converter.pending_downloads
            &&& if msg.topic == "c8y/s/ds"@ {
                spec_downstream_step(
                    pre.converter.config@,
                    pre.converter.entity_store@,
                    pre.converter.pending_uploads@,
                    post.converter.pending_uploads@,
                    msg.payload,
                    effs,
                )
            } else {
                effs == Seq::<EffectView>::empty() && post.converter.pending_uploads
                    == pre.converter.pending_uploads
            }
        },
        Some(pr) => match pr.1 {
            ChannelView::EntityRegistration => {
                &&& effs == Seq::<EffectView>::empty()
                &&& post.sync_buffer == pre.sync_buffer
                &&& post.converter.pending_downloads == pre.converter.pending_downloads
                &&& post.converter.pending_uploads == pre.converter.pending_uploads
                &&& post.converter.entity_store@ == match spec_registration_kind(msg.payload) {
                    None => pre.converter.entity_store@,
                    Some(k) => spec_upserted(
                        pre.converter.entity_store@,
                        spec_registered_entity(
                            pre.converter.config@.device_id,
                            pr.0,
                            k.0,
                            k.1,
                        ),
                    ),
                }
            },
            _ => {
                &&& post.converter.entity_store@ == spec_store_after_auto(
                    pre.converter.config@.device_id,
                    pre.converter.entity_store@,
                    pr.0,
                )
                &&& exists|converted: Seq<EffectView>|
                    #![auto]
                    effs == spec_reg_prefix(pre.converter.entity_store@, pr.0) + converted
                        && spec_channel_step(
                        pre.converter.config@,
                        spec_store_after_auto(
                            pre.converter.config@.device_id,
                            pre.converter.entity_store@,
                            pr.0,
                        ),
                        pre.converter.pending_downloads@,
                        post.converter.pending_downloads@,
                        pre.converter.pending_uploads@,
                        post.converter.pending_uploads@,
                        msgs_view(pre.sync_buffer@),
                        msgs_view(post.sync_buffer@),
                        pre.phase,
                        pr.0,
                        pr.1,
                        msg,
                        converted,
                    )
            },
        },
    }
}

// ---------------------------------------------------------------------------
// The actor
// ---------------------------------------------------------------------------
/// The mapper: the converter, the startup phase, and the synchronization
/// buffer of retained command messages that arrived during the window.
pub struct C8yMapperActor {
    pub converter: CumulocityConverter,
    pub phase: Phase,
    pub sync_buffer: Vec<MqttMessage>,
}

impl C8yMapperActor {
    /// The actor's invariant: its entity store is well formed.
    pub open spec fn wf(&self) -> bool {
        self.converter.entity_store.wf()
    }

    /// A fresh actor around a converter, not yet started.
    pub fn new(converter: CumulocityConverter) -> (r: C8yMapperActor)
        ensures
            r.converter == converter,
            r.phase == Phase::Starting,
            r.sync_buffer@ == Seq::<MqttMessage>::empty(),
    {
        C8yMapperActor { converter, phase: Phase::Starting, sync_buffer: Vec::new() }
    }

    /// The actor's name, for the shell's logs.
    pub fn name(&self) -> (r: &'static str)
        ensures
            r@ == "CumulocityMapper"@,
    {
        "CumulocityMapper"
    }

    /// Opens the synchronization window: arms the one-shot sync timer.  A
    /// second start does nothing.
    pub fn start(&mut self) -> (effs: Vec<Effect>)
        ensures
            final(self).converter == old(self).converter,
            final(self).sync_buffer == old(self).sync_buffer,
            old(self).phase == Phase::Starting ==> final(self).phase == Phase::Syncing
                && effects_view(effs@) == seq![EffectView::StartSyncTimer],
            old(self).phase != Phase::Starting ==> final(self).phase == old(self).phase
                && effects_view(effs@) == Seq::<EffectView>::empty(),
    {
        let mut effs: Vec<Effect> = Vec::new();
        if matches!(self.phase, Phase::Starting) {
            self.phase = Phase::Syncing;
            effs.push(Effect::StartSyncTimer);
            proof {
                assert(effects_view(effs@) =~= seq![EffectView::StartSyncTimer]);
            }
        } else {
            proof {
                assert(effects_view(effs@) =~= Seq::<EffectView>::empty());
            }
        }
        effs
    }

    /// Auto-registers the unknown entity a message referenced: its device,
    /// and, for a service topic, the service too, both derived from the
    /// topic; publishes their registration messages first.
    fn auto_register_entity(&mut self, tid: &TopicId) -> (effs: Vec<Effect>)
        requires
            old(self).wf(),
        ensures
            final(self).wf(),
            final(self).phase == old(self).phase,
            final(self).sync_buffer == old(self).sync_buffer,
            final(self).converter.config == old(self).converter.config,
            final(self).converter.pending_downloads == old(self).converter.pending_downloads,
            final(self).converter.pending_uploads == old(self).converter.pending_uploads,
            effects_view(effs@) == spec_registration_effects(tid@),
            final(self).converter.entity_store@ == spec_auto_registered_store(
                old(self).converter.config@.device_id,
                old(self).converter.entity_store@,
                tid@,
            ),
    {
        let mut effs: Vec<Effect> = Vec::new();
        let main_ext = self.converter.config.device_id.as_str();

        let mut device_ext = String::from_str(main_ext);
        device_ext.append(":device:");
        device_ext.append(tid.device.as_str());
        proof {
            assert(device_ext@ =~= spec_derived_external_id(
                self.converter.config@.device_id,
                tid@.0,
                Seq::<char>::empty(),
            ));
        }

        let mut device_topic = String::from_str("te/device/");
        device_topic.append(tid.device.as_str());
        let device_msg = MqttMessage::new(
            device_topic,
            String::from_str("{\"@type\":\"device\",\"type\":\"Gateway\"}"),
        );
        let device_entity = Entity {
            topic_id: TopicId::for_device(tid.device.clone()),
            external_id: device_ext,
            entity_type: EntityType::ChildDevice,
            parent: Some(TopicId::for_device(String::from_str("main"))),
        };
        proof {
            assert(device_entity@ == spec_auto_device_entity(
                self.converter.config@.device_id,
                tid@.0,
            ));
        }
        self.converter.entity_store.upsert(device_entity);
        effs.push(Effect::Publish(device_msg));

        if tid.service.as_str().unicode_len() != 0 {
            let mut service_ext = String::from_str(main_ext);
            service_ext.append(":device:");
            service_ext.append(tid.device.as_str());
            service_ext.append(":service:");
            service_ext.append(tid.service.as_str());
            proof {
                assert(service_ext@ =~= spec_derived_external_id(
                    self.converter.config@.device_id,
                    tid@.0,
                    tid@.1,
                ));
            }
            let mut service_topic = String::from_str("te/device/");
            service_topic.append(tid.device.as_str());
            service_topic.append("/service/");
            service_topic.append(tid.service.as_str());
            let service_msg = MqttMessage::new(
                service_topic,
                String::from_str("{\"@type\":\"service\",\"type\":\"systemd\"}"),
            );
            let service_entity = Entity {
                topic_id: tid.duplicate(),
                external_id: service_ext,
                entity_type: EntityType::Service,
                parent: Some(TopicId::for_device(tid.device.clone())),
            };
            proof {
                assert(service_entity@ == spec_auto_service_entity(
                    self.converter.config@.device_id,
                    tid@.0,
                    tid@.1,
                ));
            }
            self.converter.entity_store.upsert(service_entity);
            effs.push(Effect::Publish(service_msg));
            proof {
                assert(effects_view(effs@) =~= spec_registration_effects(tid@));
            }
        } else {
            proof {
                assert(effects_view(effs@) =~= spec_registration_effects(tid@));
            }
        }
        effs
    }

    /// Registers the entity an explicit registration message declares; a
    /// malformed payload is skipped, and the first writer wins.
    fn register_entity(&mut self, tid: &TopicId, payload: &str)
        requires
            old(self).wf(),
        ensures
            final(self).wf(),
            final(self).phase == old(self).phase,
            final(self).sync_buffer == old(self).sync_buffer,
            final(self).converter.config == old(self).converter.config,
            final(self).converter.pending_downloads == old(self).converter.pending_downloads,
            final(self).converter.pending_uploads == old(self).converter.pending_uploads,
            final(self).converter.entity_store@ == match spec_registration_kind(payload@) {
                None => old(self).converter.entity_store@,
                Some(k) => spec_upserted(
                    old(self).converter.entity_store@,
                    spec_registered_entity(
                        old(self).converter.config@.device_id,
                        tid@,
                        k.0,
                        k.1,
                    ),
                ),
            },
    {
        let ms = match crate::json::parse_object(payload) {
            None => {
                return ;
            },
            Some(ms) => ms,
        };
        let kind: EntityType = match crate::json::lookup(&ms, "@type") {
            Some(JsonValue::Str(k)) => {
                if str_eq(k.as_str(), "child-device") || str_eq(k.as_str(), "device") {
                    EntityType::ChildDevice
                } else if str_eq(k.as_str(), "service") {
                    EntityType::Service
                } else {
                    return ;
                }
            },
            _ => {
                return ;
            },
        };
        let external_id: String = match crate::json::lookup(&ms, "@id") {
            Some(JsonValue::Str(x)) => x.clone(),
            _ => {
                let mut d = String::from_str(self.converter.config.device_id.as_str());
                d.append(":device:");
                d.append(tid.device.as_str());
                if tid.service.as_str().unicode_len() != 0 {
                    d.append(":service:");
                    d.append(tid.service.as_str());
                }
                proof {
                    assert(d@ =~= spec_derived_external_id(
                        self.converter.config@.device_id,
                        tid@.0,
                        tid@.1,
                    ));
                }
                d
            },
        };
        let parent = if matches!(kind, EntityType::Service) {
            Some(TopicId::for_device(tid.device.clone()))
        } else {
            Some(TopicId::for_device(String::from_str("main")))
        };
        let e = Entity { topic_id: tid.duplicate(), external_id, entity_type: kind, parent };
        self.converter.entity_store.upsert(e);
    }

    /// Handles a frame from the cloud downstream topic: `526` becomes the
    /// snapshot request, `524` a cache probe; other ids belong to the wider
    /// system and produce nothing here.
    fn process_downstream(&mut self, message: &MqttMessage) -> (effs: Vec<Effect>)
        requires
            old(self).wf(),
        ensures
            final(self).wf(),
            final(self).phase == old(self).phase,
            final(self).sync_buffer == old(self).sync_buffer,
            final(self).converter.config == old(self).converter.config,
            final(self).converter.entity_store == old(self).converter.entity_store,
            final(self).converter.pending_downloads == old(self).converter.pending_downloads,
            spec_downstream_step(
                old(self).converter.config@,
                old(self).converter.entity_store@,
                old(self).converter.pending_uploads@,
                final(self).converter.pending_uploads@,
                message@.payload,
                effects_view(effs@),
            ),
    {
        let fields = match crate::smartrest::parse_record_str(message.payload.as_str()) {
            None => {
                let effs: Vec<Effect> = Vec::new();
                proof {
                    assert(effects_view(effs@) =~= Seq::<EffectView>::empty());
                }
                return effs;
            },
            Some(fs) => fs,
        };
        if fields.len() > 0 && str_eq(fields[0].as_str(), "526") {
            let result = self.converter.convert_config_snapshot_request(message.payload.as_str());
            let ghost rr = spec_result_view(result);
            match result {
                Ok(effs) => {
                    proof {
                        assert(spec_snapshot_request_outcome(
                            old(self).converter.config@,
                            old(self).converter.entity_store@,
                            message@.payload,
                            rr,
                        ));
                        assert(effects_view(effs@) == spec_collapse(rr));
                    }
                    effs
                },
                Err(_) => {
                    let effs: Vec<Effect> = Vec::new();
                    proof {
                        assert(effects_view(effs@) =~= Seq::<EffectView>::empty());
                        assert(spec_snapshot_request_outcome(
                            old(self).converter.config@,
                            old(self).converter.entity_store@,
                            message@.payload,
                            rr,
                        ));
                        assert(effects_view(effs@) == spec_collapse(rr));
                    }
                    effs
                },
            }
        } else if fields.len() > 0 && str_eq(fields[0].as_str(), "524") {
            match self.converter.config_update_cache_path(message.payload.as_str()) {
                Ok(Some(path)) => {
                    let mut effs: Vec<Effect> = Vec::new();
                    effs.push(
                        Effect::ProbeCache {
                            path,
                            frame: message.payload.clone(),
                        },
                    );
                    proof {
                        assert(effects_view(effs@) =~= seq![effs@[0]@]);
                    }
                    effs
                },
                _ => {
                    let effs: Vec<Effect> = Vec::new();
                    proof {
                        assert(effects_view(effs@) =~= Seq::<EffectView>::empty());
                    }
                    effs
                },
            }
        } else {
            let effs: Vec<Effect> = Vec::new();
            proof {
                assert(effects_view(effs@) =~= Seq::<EffectView>::empty());
            }
            effs
        }
    }

    /// Handles one inbound MQTT message: auto-registers the entity it names
    /// if unknown (the registration messages come first in the output), then
    /// converts it; retained command progress arriving inside the
    /// synchronization window is buffered instead.
    pub fn process_mqtt_message(&mut self, message: &MqttMessage) -> (effs: Vec<Effect>)
        requires
            old(self).wf(),
        ensures
            final(self).wf(),
            spec_mqtt_step(*old(self), *final(self), message@, effects_view(effs@)),
    {
        let parsed = crate::topics::parse_topic(message.topic.as_str());
        match parsed {
            None => {
                if str_eq(message.topic.as_str(), "c8y/s/ds") {
                    self.process_downstream(message)
                } else {
                    let effs: Vec<Effect> = Vec::new();
                    proof {
                        assert(effects_view(effs@) =~= Seq::<EffectView>::empty());
                    }
                    effs
                }
            },
            Some((tid, channel)) => {
                match channel {
                    Channel::EntityRegistration => {
                        self.register_entity(&tid, message.payload.as_str());
                        let effs: Vec<Effect> = Vec::new();
                        proof {
                            assert(effects_view(effs@) =~= Seq::<EffectView>::empty());
                        }
                        effs
                    },
                    Channel::Command { operation, cmd_id } => {
                        let mut effs = self.registration_prefix(&tid);
                        let ghost store1 = self.converter.entity_store@;
                        let ghost mid = *self;
                        let mut converted: Vec<Effect> = if matches!(self.phase, Phase::Syncing) {
                            self.sync_buffer.push(message.duplicate());
                            proof {
                                assert(msgs_view(self.sync_buffer@) =~= msgs_view(
                                    old(self).sync_buffer@,
                                ).push(message@));
                            }
                            let v: Vec<Effect> = Vec::new();
                            proof {
                                assert(effects_view(v@) =~= Seq::<EffectView>::empty());
                            }
                            v
                        } else {
                            match operation {
                                OperationType::ConfigSnapshot => {
                                    let result = self.converter.handle_config_snapshot_state_change(
                                        &tid,
                                        cmd_id.as_str(),
                                        message,
                                    );
                                    let ghost rr = spec_result_view(result);
                                    proof {
                                        assert(spec_snapshot_state_outcome(
                                            old(self).converter.config@,
                                            store1,
                                            mid.converter.pending_uploads@,
                                            self.converter.pending_uploads@,
                                            tid@,
                                            cmd_id@,
                                            message@,
                                            rr,
                                        ));
                                    }
                                    match result {
                                        Ok(e) => {
                                            proof {
                                                assert(effects_view(e@) == spec_collapse(rr));
                                            }
                                            e
                                        },
                                        Err(_) => {
                                            let v: Vec<Effect> = Vec::new();
                                            proof {
                                                assert(effects_view(v@)
                                                    =~= Seq::<EffectView>::empty());
                                                assert(effects_view(v@) == spec_collapse(rr));
                                            }
                                            v
                                        },
                                    }
                                },
                                OperationType::ConfigUpdate => {
                                    let result = self.converter.handle_config_update_state_change(
                                        &tid,
                                        cmd_id.as_str(),
                                        message,
                                    );
                                    let ghost rr = spec_result_view(result);
                                    proof {
                                        assert(spec_update_state_outcome(
                                            old(self).converter.config@,
                                            store1,
                                            tid@,
                                            cmd_id@,
                                            message@,
                                            rr,
                                        ));
                                    }
                                    match result {
                                        Ok(e) => {
                                            proof {
                                                assert(effects_view(e@) == spec_collapse(rr));
                                            }
                                            e
                                        },
                                        Err(_) => {
                                            let v: Vec<Effect> = Vec::new();
                                            proof {
                                                assert(effects_view(v@)
                                                    =~= Seq::<EffectView>::empty());
                                                assert(effects_view(v@) == spec_collapse(rr));
                                            }
                                            v
                                        },
                                    }
                                },
                            }
                        };
                        let ghost converted_view = effects_view(converted@);
                        proof {
                            assert(spec_channel_step(
                                old(self).converter.config@,
                                store1,
                                mid.converter.pending_downloads@,
                                self.converter.pending_downloads@,
                                mid.converter.pending_uploads@,
                                self.converter.pending_uploads@,
                                msgs_view(mid.sync_buffer@),
                                msgs_view(self.sync_buffer@),
                                old(self).phase,
                                tid@,
                                ChannelView::Command { operation, cmd_id: cmd_id@ },
                                message@,
                                converted_view,
                            ));
                        }
                        effs.append(&mut converted);
                        proof {
                            assert(effects_view(effs@) =~= spec_reg_prefix(
                                old(self).converter.entity_store@,
                                tid@,
                            ) + converted_view);
                        }
                        effs
                    },
                    Channel::CommandMetadata { operation } => {
                        let mut effs = self.registration_prefix(&tid);
                        let ghost store1 = self.converter.entity_store@;
                        let ghost mid = *self;
                        let mut converted: Vec<Effect> = match operation {
                            OperationType::ConfigSnapshot => {
                                let result = self.converter.convert_config_snapshot_metadata(
                                    &tid,
                                    message,
                                );
                                let ghost rr = spec_result_view(result);
                                proof {
                                    if old(self).converter.config@.config_snapshot {
                                        assert(spec_metadata_outcome(
                                            old(self).converter.config@,
                                            store1,
                                            tid@,
                                            message@.payload,
                                            CumulocitySupportedOperations::C8yUploadConfigFile,
                                            rr,
                                        ));
                                    }
                                }
                                match result {
                                    Ok(e) => {
                                        proof {
                                            assert(effects_view(e@) == spec_collapse(rr));
                                        }
                                        e
                                    },
                                    Err(_) => {
                                        let v: Vec<Effect> = Vec::new();
                                        proof {
                                            assert(effects_view(v@)
                                                =~= Seq::<EffectView>::empty());
                                            assert(effects_view(v@) == spec_collapse(rr));
                                        }
                                        v
                                    },
                                }
                            },
                            OperationType::ConfigUpdate => {
                                let result = self.converter.convert_config_update_metadata(
                                    &tid,
                                    message,
                                );
                                let ghost rr = spec_result_view(result);
                                proof {
                                    if old(self).converter.config@.config_update {
                                        assert(spec_metadata_outcome(
                                            old(self).converter.config@,
                                            store1,
                                            tid@,
                                            message@.payload,
                                            CumulocitySupportedOperations::C8yDownloadConfigFile,
                                            rr,
                                        ));
                                    }
                                }
                                match result {
                                    Ok(e) => {
                                        proof {
                                            assert(effects_view(e@) == spec_collapse(rr));
                                        }
                                        e
                                    },
                                    Err(_) => {
                                        let v: Vec<Effect> = Vec::new();
                                        proof {
                                            assert(effects_view(v@)
                                                =~= Seq::<EffectView>::empty());
                                            assert(effects_view(v@) == spec_collapse(rr));
                                        }
                                        v
                                    },
                                }
                            },
                        };
                        let ghost converted_view = effects_view(converted@);
                        proof {
                            assert(spec_channel_step(
                                old(self).converter.config@,
                                store1,
                                mid.converter.pending_downloads@,
                                self.converter.pending_downloads@,
                                mid.converter.pending_uploads@,
                                self.converter.pending_uploads@,
                                msgs_view(mid.sync_buffer@),
                                msgs_view(self.sync_buffer@),
                                old(self).phase,
                                tid@,
                                ChannelView::CommandMetadata { operation },
                                message@,
                                converted_view,
                            ));
                        }
                        effs.append(&mut converted);
                        proof {
                            assert(effects_view(effs@) =~= spec_reg_prefix(
                                old(self).converter.entity_store@,
                                tid@,
                            ) + converted_view);
                        }
                        effs
                    },
                    Channel::Other => {
                        let effs = self.registration_prefix(&tid);
                        proof {
                            assert(effects_view(effs@) =~= spec_reg_prefix(
                                old(self).converter.entity_store@,
                                tid@,
                            ) + Seq::<EffectView>::empty());
                            assert(spec_channel_step(
                                old(self).converter.config@,
                                self.converter.entity_store@,
                                self.converter.pending_downloads@,
                                self.converter.pending_downloads@,
                                self.converter.pending_uploads@,
                                self.converter.pending_uploads@,
                                msgs_view(self.sync_buffer@),
                                msgs_view(self.sync_buffer@),
                                old(self).phase,
                                tid@,
                                ChannelView::Other,
                                message@,
                                Seq::<EffectView>::empty(),
                            ));
                        }
                        effs
                    },
                }
            },
        }
    }

    /// Auto-registers the entity when unknown; the returned effects are the
    /// registration messages, or nothing for a known entity.
    fn registration_prefix(&mut self, tid: &TopicId) -> (effs: Vec<Effect>)
        requires
            old(self).wf(),
        ensures
            final(self).wf(),
            final(self).phase == old(self).phase,
            final(self).sync_buffer == old(self).sync_buffer,
            final(self).converter.config == old(self).converter.config,
            final(self).converter.pending_downloads == old(self).converter.pending_downloads,
            final(self).converter.pending_uploads == old(self).converter.pending_uploads,
            effects_view(effs@) == spec_reg_prefix(old(self).converter.entity_store@, tid@),
            final(self).converter.entity_store@ == spec_store_after_auto(
                old(self).converter.config@.device_id,
                old(self).converter.entity_store@,
                tid@,
            ),
    {
        let known = self.converter.entity_store.get(tid).is_some();
        if known {
            let effs: Vec<Effect> = Vec::new();
            proof {
                assert(effects_view(effs@) =~= Seq::<EffectView>::empty());
            }
            effs
        } else {
            self.auto_register_entity(tid)
        }
    }

    /// Resumes a `524` request once the shell probed the cache path a
    /// [`Effect::ProbeCache`] named: `cache_hit` says whether the file was
    /// there.
    pub fn process_cache_result(&mut self, frame: &str, cache_hit: bool) -> (effs: Vec<Effect>)
        requires
            old(self).wf(),
        ensures
            final(self).wf(),
            final(self).phase == old(self).phase,
            final(self).sync_buffer == old(self).sync_buffer,
            final(self).converter.config == old(self).converter.config,
            final(self).converter.entity_store == old(self).converter.entity_store,
            final(self).converter.pending_uploads == old(self).converter.pending_uploads,
            exists|rr: Result<Seq<EffectView>, MapperError>|
                #![auto]
                spec_update_request_outcome(
                    old(self).converter.config@,
                    old(self).converter.entity_store@,
                    old(self).converter.pending_downloads@,
                    final(self).converter.pending_downloads@,
                    frame@,
                    cache_hit,
                    rr,
                ) && effects_view(effs@) == spec_collapse(rr),
    {
        let result = self.converter.convert_config_update_request(frame, cache_hit);
        let ghost rr = spec_result_view(result);
        match result {
            Ok(e) => {
                proof {
                    assert(effects_view(e@) == spec_collapse(rr));
                }
                e
            },
            Err(_) => {
                let v: Vec<Effect> = Vec::new();
                proof {
                    assert(effects_view(v@) =~= Seq::<EffectView>::empty());
                    assert(effects_view(v@) == spec_collapse(rr));
                }
                v
            },
        }
    }

    /// Resumes a config update once the download worker answered.
    pub fn process_download_result(
        &mut self,
        cmd_id: &str,
        download: Result<&str, &str>,
    ) -> (effs: Vec<Effect>)
        requires
            old(self).wf(),
        ensures
            final(self).wf(),
            final(self).phase == old(self).phase,
            final(self).sync_buffer == old(self).sync_buffer,
            final(self).converter.config == old(self).converter.config,
            final(self).converter.entity_store == old(self).converter.entity_store,
            final(self).converter.pending_uploads == old(self).converter.pending_uploads,
            exists|rr: Result<Seq<EffectView>, MapperError>|
                #![auto]
                spec_download_result_outcome(
                    old(self).converter.config@,
                    old(self).converter.entity_store@,
                    old(self).converter.pending_downloads@,
                    final(self).converter.pending_downloads@,
                    cmd_id@,
                    match download {
                        Ok(u) => Ok(u@),
                        Err(e) => Err(e@),
                    },
                    rr,
                ) && effects_view(effs@) == spec_collapse(rr),
    {
        let result = self.converter.process_download_result_for_config_update(cmd_id, download);
        let ghost rr = spec_result_view(result);
        match result {
            Ok(e) => {
                proof {
                    assert(effects_view(e@) == spec_collapse(rr));
                }
                e
            },
            Err(_) => {
                let v: Vec<Effect> = Vec::new();
                proof {
                    assert(effects_view(v@) =~= Seq::<EffectView>::empty());
                    assert(effects_view(v@) == spec_collapse(rr));
                }
                v
            },
        }
    }

    /// Answers the cloud once the shell finished the upload an
    /// [`Effect::Upload`] asked for.
    pub fn process_upload_result(
        &mut self,
        cmd_id: &str,
        upload: Result<&str, &str>,
    ) -> (effs: Vec<Effect>)
        requires
            old(self).wf(),
        ensures
            final(self).wf(),
            final(self).phase == old(self).phase,
            final(self).sync_buffer == old(self).sync_buffer,
            final(self).converter.config == old(self).converter.config,
            final(self).converter.entity_store == old(self).converter.entity_store,
            final(self).converter.pending_downloads == old(self).converter.pending_downloads,
            spec_finish_upload_outcome(
                old(self).converter.pending_uploads@,
                final(self).converter.pending_uploads@,
                cmd_id@,
                match upload {
                    Ok(u) => Ok(u@),
                    Err(e) => Err(e@),
                },
                effects_view(effs@),
            ),
    {
        self.converter.finish_config_snapshot_upload(cmd_id, upload)
    }

    /// Handles one file-system watcher event: a directory created directly
    /// under the operations root announces a child device to the cloud;
    /// everything else belongs to other subsystems.
    pub fn process_file_watch_event(&self, event: &FsWatchEvent) -> (effs: Vec<Effect>)
        ensures
            match event@ {
                FsWatchEventView::DirectoryCreated(path) => effects_view(effs@)
                    == spec_dir_created_effects(self.converter.config@, path),
                _ => effects_view(effs@) == Seq::<EffectView>::empty(),
            },
    {
        match event {
            FsWatchEvent::DirectoryCreated(path) => {
                let mut segs = crate::text::split_str(path.as_str(), '/');
                proof {
                    crate::text::lemma_split_seq_nonempty(path@, '/');
                }
                if segs.len() < 2 {
                    let effs: Vec<Effect> = Vec::new();
                    proof {
                        assert(effects_view(effs@) =~= Seq::<EffectView>::empty());
                    }
                    return effs;
                }
                let base = match segs.pop() {
                    Some(b) => b,
                    None => {
                        let effs: Vec<Effect> = Vec::new();
                        proof {
                            assert(effects_view(effs@) =~= Seq::<EffectView>::empty());
                        }
                        return effs;
                    },
                };
                let parent = crate::text::join_strings(&segs, '/');
                proof {
                    let full = split_seq(path@, '/');
                    assert(segs@.map_values(|f: String| f@) =~= full.drop_last());
                    assert(base@ == full.last());
                }
                if base.as_str().unicode_len() != 0 && str_eq(
                    parent.as_str(),
                    self.converter.config.ops_dir.as_str(),
                ) {
                    let frame = crate::smartrest::child_device_creation(base.as_str());
                    let mut effs: Vec<Effect> = Vec::new();
                    effs.push(
                        Effect::Publish(MqttMessage::new(String::from_str("c8y/s/us"), frame)),
                    );
                    proof {
                        assert(effects_view(effs@) =~= seq![effs@[0]@]);
                    }
                    effs
                } else {
                    let effs: Vec<Effect> = Vec::new();
                    proof {
                        assert(effects_view(effs@) =~= Seq::<EffectView>::empty());
                    }
                    effs
                }
            },
            _ => {
                let effs: Vec<Effect> = Vec::new();
                proof {
                    assert(effects_view(effs@) =~= Seq::<EffectView>::empty());
                }
                effs
            },
        }
    }

    /// Closes the synchronization window: every buffered retained command is
    /// processed through the normal path, in arrival order, and the returned
    /// effects are their outputs concatenated in that order.
    pub fn process_sync_timeout(&mut self) -> (effs: Vec<Effect>)
        requires
            old(self).wf(),
        ensures
            final(self).wf(),
            final(self).phase == Phase::Ready,
            final(self).sync_buffer@ == Seq::<MqttMessage>::empty(),
            final(self).converter.config == old(self).converter.config,
            exists|states: Seq<C8yMapperActor>, parts: Seq<Seq<EffectView>>|
                #![auto]
                spec_drain_trace(
                    *old(self),
                    *final(self),
                    states,
                    parts,
                    effects_view(effs@),
                ),
    {
        self.phase = Phase::Ready;

        // Take the buffered messages out, keeping their arrival order.
        let mut msgs: Vec<MqttMessage> = Vec::new();
        while self.sync_buffer.len() > 0
            invariant
                self.wf(),
                self.phase == Phase::Ready,
                self.converter == old(self).converter,
                msgs@ + self.sync_buffer@ == old(self).sync_buffer@,
            decreases self.sync_buffer@.len(),
        {
            let m = self.sync_buffer.remove(0);
            msgs.push(m);
            proof {
                assert(msgs@ + self.sync_buffer@ =~= old(self).sync_buffer@);
            }
        }
        proof {
            assert(self.sync_buffer@ =~= Seq::<MqttMessage>::empty());
            assert(msgs@ =~= old(self).sync_buffer@);
        }

        // Process them front to back.
        let ghost mut states: Seq<C8yMapperActor> = seq![*self];
        let ghost mut parts: Seq<Seq<EffectView>> = Seq::<Seq<EffectView>>::empty();
        let mut out: Vec<Effect> = Vec::new();
        proof {
            assert(parts.flatten() =~= Seq::<EffectView>::empty());
            assert(effects_view(out@) =~= Seq::<EffectView>::empty());
        }
        let mut i: usize = 0;
        while i < msgs.len()
            invariant
                self.wf(),
                i <= msgs@.len(),
                states.len() == i + 1,
                parts.len() == i as nat,
                states[0].phase == Phase::Ready,
                states[0].converter == old(self).converter,
                states[0].sync_buffer@ == Seq::<MqttMessage>::empty(),
                states[i as int] == *self,
                forall|j: int|
                    0 <= j < i ==> spec_mqtt_step(
                        states[j],
                        #[trigger] states[j + 1],
                        msgs@[j]@,
                        parts[j],
                    ),
                effects_view(out@) == parts.flatten(),
                self.phase == Phase::Ready,
                self.sync_buffer@ == Seq::<MqttMessage>::empty(),
                self.converter.config == old(self).converter.config,
            decreases msgs@.len() - i,
        {
            let mut step_effs = self.process_mqtt_message(&msgs[i]);
            proof {
                broadcast use Seq::lemma_flatten_push;

                states = states.push(*self);
                parts = parts.push(effects_view(step_effs@));
            }
            out.append(&mut step_effs);
            i = i + 1;
            proof {
                assert(effects_view(out@) =~= parts.flatten());
            }
        }
        proof {
            assert(msgs_view(msgs@) =~= msgs_view(old(self).sync_buffer@));
            assert(spec_drain_trace(*old(self), *self, states, parts, effects_view(out@)));
        }
        out
    }
}

/// The trace the synchronization drain leaves: starting from the old state
/// with the window closed and the buffer taken out, each buffered message is
/// processed in arrival order, and the outputs are concatenated in order.
pub open spec fn spec_drain_trace(
    pre: C8yMapperActor,
    post: C8yMapperActor,
    states: Seq<C8yMapperActor>,
    parts: Seq<Seq<EffectView>>,
    effs: Seq<EffectView>,
) -> bool {
    let msgs = pre.sync_buffer@;
    &&& states.len() == msgs.len() + 1
    &&& parts.len() == msgs.len()
    &&& states[0].phase == Phase::Ready
    &&& states[0].converter == pre.converter
    &&& states[0].sync_buffer@ == Seq::<MqttMessage>::empty()
    &&& post == states[msgs.len() as int]
    &&& forall|j: int|
        0 <= j < msgs.len() ==> spec_mqtt_step(
            states[j],
            #[trigger] states[j + 1],
            msgs[j]@,
            parts[j],
        )
    &&& effs == parts.flatten()
}

/// What a directory created under the operations root causes/// What a directory created under the operations root causes: when its
/// parent is exactly the operations root and its name is not empty, a `101`
/// child-creation frame for that name on the upstream topic.
pub open spec fn spec_dir_created_effects(cv: ConfigView, path: Seq<char>) -> Seq<EffectView> {
    let segs = split_seq(path, '/');
    if segs.len() >= 2 && segs.last().len() != 0 && join_seq(segs.drop_last(), '/') == cv.ops_dir {
        seq![
            EffectView::Publish(
                spec_sm_message("c8y/s/us"@, spec_child_creation_frame(segs.last())),
            ),
        ]
    } else {
        Seq::<EffectView>::empty()
    }
}

} // verus!
