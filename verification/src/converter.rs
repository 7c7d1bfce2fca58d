//! The converter: turns inbound cloud requests, command progress and metadata
//! into outbound effects, and owns the entity store and the pending-operation
//! tables.
//!
//! Nothing here performs I/O: each entry point returns the [`Effect`]s that
//! one inbound event causes, in order, for an unverified shell to execute.

use vstd::prelude::*;
use vstd::string::*;

use crate::entity::EntityStore;
use crate::entity::EntityType;
use crate::entity::EntityView;
use crate::entity::spec_find_by_external;
use crate::entity::spec_find_by_topic;
use crate::error::MapperError;
use crate::ids::is_id_char;
use crate::ids::sha256_hex;
use crate::ids::sha256_hex_of;
use crate::payloads::CommandStatus;
use crate::payloads::CommandStatusView;
use crate::payloads::spec_command_payload;
use crate::smartrest::CumulocitySupportedOperations;
use crate::smartrest::SmartRestConfigDownloadRequest;
use crate::smartrest::SmartRestConfigUploadRequest;
use crate::smartrest::spec_download_request;
use crate::smartrest::spec_executing_frame;
use crate::smartrest::spec_failed_frame;
use crate::smartrest::spec_successful_frame;
use crate::smartrest::spec_upload_request;
use crate::table::Table;
use crate::table::spec_get as spec_table_get;
use crate::text::sanitize_seq;
use crate::text::sanitize_type_tag;
use crate::topics::OperationType;
use crate::topics::TopicId;
use crate::topics::spec_entity_segment;
use crate::topics::spec_operation_name;

verus! {

/// Which operation families this mapper instance drives.
pub struct Capabilities {
    pub config_snapshot: bool,
    pub config_update: bool,
}

/// The mapper's configuration surface.
pub struct C8yMapperConfig {
    /// The main device's cloud external id.
    pub device_id: String,
    /// Host and port of the local HTTP file-transfer service.
    pub tedge_http_host: String,
    /// The data directory, holding `cache/` and `file-transfer/`.
    pub data_dir: String,
    /// The supported-operations directory.
    pub ops_dir: String,
    pub capabilities: Capabilities,
}

/// The view of a [`C8yMapperConfig`].
pub struct ConfigView {
    pub device_id: Seq<char>,
    pub tedge_http_host: Seq<char>,
    pub data_dir: Seq<char>,
    pub ops_dir: Seq<char>,
    pub config_snapshot: bool,
    pub config_update: bool,
}

impl View for C8yMapperConfig {
    type V = ConfigView;

    open spec fn view(&self) -> ConfigView {
        ConfigView {
            device_id: self.device_id@,
            tedge_http_host: self.tedge_http_host@,
            data_dir: self.data_dir@,
            ops_dir: self.ops_dir@,
            config_snapshot: self.capabilities.config_snapshot,
            config_update: self.capabilities.config_update,
        }
    }
}

/// MQTT delivery guarantees used on the edge bus.
#[derive(Clone, Copy, PartialEq, Eq, Structural, Debug)]
pub enum QoS {
    AtMostOnce,
    AtLeastOnce,
}

/// An MQTT message to publish.
pub struct MqttMessage {
    pub topic: String,
    pub payload: String,
    pub retain: bool,
    pub qos: QoS,
}

/// The view of an [`MqttMessage`].
pub struct MqttMessageView {
    pub topic: Seq<char>,
    pub payload: Seq<char>,
    pub retain: bool,
    pub qos: QoS,
}

impl View for MqttMessage {
    type V = MqttMessageView;

    open spec fn view(&self) -> MqttMessageView {
        MqttMessageView {
            topic: self.topic@,
            payload: self.payload@,
            retain: self.retain,
            qos: self.qos,
        }
    }
}

impl MqttMessage {
    /// A plain message: not retained, delivered at least once.
    pub fn new(topic: String, payload: String) -> (r: MqttMessage)
        ensures
            r@ == (MqttMessageView {
                topic: topic@,
                payload: payload@,
                retain: false,
                qos: QoS::AtLeastOnce,
            }),
    {
        MqttMessage { topic, payload, retain: false, qos: QoS::AtLeastOnce }
    }

    /// A copy of this message.
    pub fn duplicate(&self) -> (r: MqttMessage)
        ensures
            r@ == self@,
    {
        MqttMessage {
            topic: self.topic.clone(),
            payload: self.payload.clone(),
            retain: self.retain,
            qos: self.qos,
        }
    }

    /// The same message with the retain flag set.
    pub fn with_retain(self) -> (r: MqttMessage)
        ensures
            r@ == (MqttMessageView {
                topic: self@.topic,
                payload: self@.payload,
                retain: true,
                qos: self@.qos,
            }),
    {
        MqttMessage { retain: true, ..self }
    }
}

/// The empty retained message that clears a command topic.
pub open spec fn spec_clear_message(topic: Seq<char>) -> MqttMessageView {
    MqttMessageView {
        topic,
        payload: Seq::<char>::empty(),
        retain: true,
        qos: QoS::AtLeastOnce,
    }
}

/// A cloud-facing SmartREST publish.
pub open spec fn spec_sm_message(topic: Seq<char>, payload: Seq<char>) -> MqttMessageView {
    MqttMessageView { topic, payload, retain: false, qos: QoS::AtLeastOnce }
}

/// What one inbound event asks the shell to do, in order.
pub enum Effect {
    /// Publish an MQTT message.
    Publish(MqttMessage),
    /// Hand a download to the download worker; its result comes back later.
    Download { cmd_id: String, url: String, dest: String },
    /// Upload the staged file to the cloud; the result is handed back to
    /// [`CumulocityConverter::finish_config_snapshot_upload`].
    Upload { cmd_id: String, file_path: String, config_type: String, external_id: String },
    /// Create a symlink at `link` pointing at `target`, creating the parent
    /// directories; a no-op when the link already exists.
    CreateSymlink { link: String, target: String },
    /// Remove the file at `path`, best effort; absence is not an error.
    RemoveSymlink { path: String },
    /// Create a directory and its parents; a no-op when it exists.
    CreateDirectory { path: String },
    /// Create an empty file; a no-op when it exists.
    CreateFile { path: String },
    /// Probe whether the file at `path` exists, and hand the answer back to
    /// the mapper's cache-result entry point together with `frame`.
    ProbeCache { path: String, frame: String },
    /// Arm the one-shot synchronization timer.
    StartSyncTimer,
}

/// The view of an [`Effect`].
pub enum EffectView {
    Publish(MqttMessageView),
    Download { cmd_id: Seq<char>, url: Seq<char>, dest: Seq<char> },
    Upload { cmd_id: Seq<char>, file_path: Seq<char>, config_type: Seq<char>, external_id: Seq<char> },
    CreateSymlink { link: Seq<char>, target: Seq<char> },
    RemoveSymlink { path: Seq<char> },
    CreateDirectory { path: Seq<char> },
    CreateFile { path: Seq<char> },
    ProbeCache { path: Seq<char>, frame: Seq<char> },
    StartSyncTimer,
}

impl View for Effect {
    type V = EffectView;

    open spec fn view(&self) -> EffectView {
        match self {
            Effect::Publish(m) => EffectView::Publish(m@),
            Effect::Download { cmd_id, url, dest } => EffectView::Download {
                cmd_id: cmd_id@,
                url: url@,
                dest: dest@,
            },
            Effect::Upload { cmd_id, file_path, config_type, external_id } => EffectView::Upload {
                cmd_id: cmd_id@,
                file_path: file_path@,
                config_type: config_type@,
                external_id: external_id@,
            },
            Effect::CreateSymlink { link, target } => EffectView::CreateSymlink {
                link: link@,
                target: target@,
            },
            Effect::RemoveSymlink { path } => EffectView::RemoveSymlink { path: path@ },
            Effect::CreateDirectory { path } => EffectView::CreateDirectory { path: path@ },
            Effect::CreateFile { path } => EffectView::CreateFile { path: path@ },
            Effect::ProbeCache { path, frame } => EffectView::ProbeCache {
                path: path@,
                frame: frame@,
            },
            Effect::StartSyncTimer => EffectView::StartSyncTimer,
        }
    }
}

/// The views of a list of effects.
pub open spec fn effects_view(v: Seq<Effect>) -> Seq<EffectView> {
    v.map_values(|e: Effect| e@)
}

// ---------------------------------------------------------------------------
// Derived names and paths
// ---------------------------------------------------------------------------
/// The file name of one command's transfer: the sanitized config type, a
/// dash, and the command id.
pub open spec fn spec_type_file_name(config_type: Seq<char>, cmd_id: Seq<char>) -> Seq<char> {
    sanitize_seq(config_type) + "-"@ + cmd_id
}

/// Builds the transfer file name for a config type and a command id.
pub fn type_file_name(config_type: &str, cmd_id: &str) -> (r: String)
    ensures
        r@ == spec_type_file_name(config_type@, cmd_id@),
{
    let mut r = sanitize_type_tag(config_type);
    r.append("-");
    r.append(cmd_id);
    proof {
        assert(r@ =~= spec_type_file_name(config_type@, cmd_id@));
    }
    r
}

/// Type-tag path safety: the transfer file name holds no path separator when
/// the command id is a minted one.
pub proof fn lemma_type_file_name_no_slash(config_type: Seq<char>, cmd_id: Seq<char>)
    requires
        forall|i: int| 0 <= i < cmd_id.len() ==> is_id_char(#[trigger] cmd_id[i]),
    ensures
        forall|i: int|
            0 <= i < spec_type_file_name(config_type, cmd_id).len() ==> #[trigger] spec_type_file_name(
                config_type,
                cmd_id,
            )[i] != '/',
{
    crate::text::lemma_sanitize_no_slash(config_type);
    crate::ids::lemma_safe_chars_no_slash();
    reveal_strlit("-");
    let f = spec_type_file_name(config_type, cmd_id);
    let n = sanitize_seq(config_type).len() as int;
    assert forall|i: int| 0 <= i < f.len() implies #[trigger] f[i] != '/' by {
        if i < n {
            assert(f[i] == sanitize_seq(config_type)[i]);
        } else if i == n {
            assert(f[i] == '-');
        } else {
            assert(f[i] == cmd_id[i - n - 1]);
        }
    }
}

/// The URL through which the device reads or writes the staged file.
pub open spec fn spec_tedge_url(
    host: Seq<char>,
    external_id: Seq<char>,
    op: OperationType,
    config_type: Seq<char>,
    cmd_id: Seq<char>,
) -> Seq<char> {
    "http://"@ + host + "/tedge/file-transfer/"@ + external_id + "/"@ + spec_operation_name(op)
        + "/"@ + spec_type_file_name(config_type, cmd_id)
}

/// Builds the file-transfer URL for one command.
pub fn tedge_url(
    host: &str,
    external_id: &str,
    op: OperationType,
    config_type: &str,
    cmd_id: &str,
) -> (r: String)
    ensures
        r@ == spec_tedge_url(host@, external_id@, op, config_type@, cmd_id@),
{
    let mut r = String::from_str("http://");
    r.append(host);
    r.append("/tedge/file-transfer/");
    r.append(external_id);
    r.append("/");
    r.append(op.name());
    r.append("/");
    let f = type_file_name(config_type, cmd_id);
    r.append(f.as_str());
    proof {
        assert(r@ =~= spec_tedge_url(host@, external_id@, op, config_type@, cmd_id@));
    }
    r
}

/// The on-disk path that the file-transfer URL maps to.
pub open spec fn spec_file_transfer_path(
    data_dir: Seq<char>,
    external_id: Seq<char>,
    op: OperationType,
    config_type: Seq<char>,
    cmd_id: Seq<char>,
) -> Seq<char> {
    data_dir + "/file-transfer/"@ + external_id + "/"@ + spec_operation_name(op) + "/"@
        + spec_type_file_name(config_type, cmd_id)
}

/// Builds the on-disk path of one command's staged file.
pub fn file_transfer_path(
    data_dir: &str,
    external_id: &str,
    op: OperationType,
    config_type: &str,
    cmd_id: &str,
) -> (r: String)
    ensures
        r@ == spec_file_transfer_path(data_dir@, external_id@, op, config_type@, cmd_id@),
{
    let mut r = String::from_str(data_dir);
    r.append("/file-transfer/");
    r.append(external_id);
    r.append("/");
    r.append(op.name());
    r.append("/");
    let f = type_file_name(config_type, cmd_id);
    r.append(f.as_str());
    proof {
        assert(r@ =~= spec_file_transfer_path(
            data_dir@,
            external_id@,
            op,
            config_type@,
            cmd_id@,
        ));
    }
    r
}

/// The cache entry a remote URL is stored under: its SHA-256 digest.
pub open spec fn spec_cache_path(data_dir: Seq<char>, url: Seq<char>) -> Seq<char> {
    data_dir + "/cache/"@ + sha256_hex_of(url)
}

/// Builds the cache path of a remote URL.
pub fn cache_path(data_dir: &str, url: &str) -> (r: String)
    ensures
        r@ == spec_cache_path(data_dir@, url@),
{
    let mut r = String::from_str(data_dir);
    r.append("/cache/");
    let k = sha256_hex(url);
    r.append(k.as_str());
    proof {
        assert(r@ =~= spec_cache_path(data_dir@, url@));
    }
    r
}

/// The cloud topic an entity's SmartREST frames go out on: the upstream base
/// for the main device, `<base>/<external_id>` for every other entity.
pub open spec fn spec_sm_topic(e: EntityView) -> Seq<char> {
    if e.entity_type == EntityType::MainDevice {
        "c8y/s/us"@
    } else {
        "c8y/s/us/"@ + e.external_id
    }
}

// ---------------------------------------------------------------------------
// The converter itself
// ---------------------------------------------------------------------------
/// What is needed to answer the cloud once a snapshot upload finishes.
pub struct UploadTicket {
    pub sm_topic: String,
    pub clear_topic: String,
}

/// The view of an [`UploadTicket`].
pub struct UploadTicketView {
    pub sm_topic: Seq<char>,
    pub clear_topic: Seq<char>,
}

impl View for UploadTicket {
    type V = UploadTicketView;

    open spec fn view(&self) -> UploadTicketView {
        UploadTicketView { sm_topic: self.sm_topic@, clear_topic: self.clear_topic@ }
    }
}

/// The converter: owns the entity store and the tables of operations waiting
/// for a download or an upload to finish.
pub struct CumulocityConverter {
    pub config: C8yMapperConfig,
    pub entity_store: EntityStore,
    pub pending_downloads: Table<SmartRestConfigDownloadRequest>,
    pub pending_uploads: Table<UploadTicket>,
}

/// The single init command message an accepted cloud request causes.
pub open spec fn spec_init_cmd_effects(
    cv: ConfigView,
    target: EntityView,
    op: OperationType,
    config_type: Seq<char>,
    remote_url: Option<Seq<char>>,
    cmd_id: Seq<char>,
) -> Seq<EffectView> {
    seq![
        EffectView::Publish(
            MqttMessageView {
                topic: crate::topics::spec_command_topic(target.topic_id, op, cmd_id),
                payload: match remote_url {
                    None => crate::payloads::spec_snapshot_init_payload(
                        spec_tedge_url(
                            cv.tedge_http_host,
                            target.external_id,
                            op,
                            config_type,
                            cmd_id,
                        ),
                        config_type,
                    ),
                    Some(u) => crate::payloads::spec_update_init_payload(
                        spec_tedge_url(
                            cv.tedge_http_host,
                            target.external_id,
                            op,
                            config_type,
                            cmd_id,
                        ),
                        u,
                        config_type,
                    ),
                },
                retain: true,
                qos: QoS::AtLeastOnce,
            },
        ),
    ]
}

/// What an accepted `524` request causes: on a cache hit the symlink and the
/// retained init command; otherwise one download dispatch.
pub open spec fn spec_update_request_effects(
    cv: ConfigView,
    target: EntityView,
    req: (Seq<char>, Seq<char>, Seq<char>),
    cache_hit: bool,
    cmd_id: Seq<char>,
) -> Seq<EffectView> {
    if cache_hit {
        seq![
            EffectView::CreateSymlink {
                link: spec_file_transfer_path(
                    cv.data_dir,
                    target.external_id,
                    OperationType::ConfigUpdate,
                    req.2,
                    cmd_id,
                ),
                target: spec_cache_path(cv.data_dir, req.1),
            },
            spec_init_cmd_effects(cv, target, OperationType::ConfigUpdate, req.2, Some(req.1), cmd_id)[0],
        ]
    } else {
        seq![
            EffectView::Download { cmd_id: cmd_id, url: req.1, dest: spec_cache_path(cv.data_dir, req.1) },
        ]
    }
}

/// A converter result, seen at the specification level.
pub open spec fn spec_result_view(r: Result<Vec<Effect>, MapperError>) -> Result<
    Seq<EffectView>,
    MapperError,
> {
    match r {
        Ok(effs) => Ok(effects_view(effs@)),
        Err(e) => Err(e),
    }
}

/// How a `526` cloud request is answered, under some freshly minted command
/// id: nothing when the capability is off, an error for a malformed frame or
/// an unknown device, and the retained init command when accepted.
pub open spec fn spec_snapshot_request_outcome(
    cv: ConfigView,
    store: Seq<EntityView>,
    smartrest: Seq<char>,
    r: Result<Seq<EffectView>, MapperError>,
) -> bool {
    &&& !cv.config_snapshot ==> (r matches Ok(effs) && effs == Seq::<EffectView>::empty())
    &&& cv.config_snapshot ==> match r {
        Ok(effs) => {
            &&& spec_upload_request(smartrest) matches Some(req)
            &&& spec_find_by_external(store, req.0) matches Some(target)
            &&& exists|cmd_id: Seq<char>|
                #![auto]
                ((forall|i: int| 0 <= i < cmd_id.len() ==> is_id_char(cmd_id[i])) && effs
                    == spec_init_cmd_effects(
                    cv,
                    target,
                    OperationType::ConfigSnapshot,
                    req.1,
                    None,
                    cmd_id,
                ))
        },
        Err(e) => match e {
            MapperError::SmartRestParse => spec_upload_request(smartrest) is None,
            MapperError::UnknownDevice { device_id } => {
                &&& spec_upload_request(smartrest) matches Some(req)
                &&& req.0 == device_id@
                &&& spec_find_by_external(store, req.0) is None
            },
            _ => false,
        },
    }
}

/// How a command progress message on a config snapshot command is answered.
pub open spec fn spec_snapshot_state_outcome(
    cv: ConfigView,
    store: Seq<EntityView>,
    old_uploads: Seq<(Seq<char>, UploadTicket)>,
    new_uploads: Seq<(Seq<char>, UploadTicket)>,
    tid: (Seq<char>, Seq<char>),
    cmd_id: Seq<char>,
    msg: MqttMessageView,
    r: Result<Seq<EffectView>, MapperError>,
) -> bool {
    &&& !cv.config_snapshot ==> (r matches Ok(effs) && effs == Seq::<EffectView>::empty()
        && new_uploads == old_uploads)
    &&& cv.config_snapshot ==> match r {
        Err(e) => new_uploads == old_uploads && match e {
            MapperError::UnregisteredDevice { topic_id: t } => t@ == spec_entity_segment(tid)
                && spec_find_by_topic(store, tid) is None,
            MapperError::JsonParse => spec_find_by_topic(store, tid) is Some
                && spec_command_payload(msg.payload) is None,
            _ => false,
        },
        Ok(effs) => {
            &&& spec_find_by_topic(store, tid) matches Some(device)
            &&& spec_command_payload(msg.payload) matches Some(p)
            &&& match p.status {
                CommandStatusView::Init => effs == Seq::<EffectView>::empty() && new_uploads
                    == old_uploads,
                CommandStatusView::Executing => effs == seq![
                    EffectView::Publish(
                        spec_sm_message(
                            spec_sm_topic(device),
                            spec_executing_frame(
                                CumulocitySupportedOperations::C8yUploadConfigFile,
                            ),
                        ),
                    ),
                ] && new_uploads == old_uploads,
                CommandStatusView::Failed { reason } => effs == seq![
                    EffectView::Publish(
                        spec_sm_message(
                            spec_sm_topic(device),
                            spec_failed_frame(
                                CumulocitySupportedOperations::C8yUploadConfigFile,
                                reason,
                            ),
                        ),
                    ),
                    EffectView::Publish(spec_clear_message(msg.topic)),
                ] && new_uploads == old_uploads,
                CommandStatusView::Successful => {
                    &&& effs == seq![
                        EffectView::Upload {
                            cmd_id: cmd_id,
                            file_path: spec_file_transfer_path(
                                cv.data_dir,
                                device.external_id,
                                OperationType::ConfigSnapshot,
                                p.config_type,
                                cmd_id,
                            ),
                            config_type: p.config_type,
                            external_id: device.external_id,
                        },
                    ]
                    &&& new_uploads.len() == old_uploads.len() + 1
                    &&& new_uploads == old_uploads.push((cmd_id, new_uploads.last().1))
                    &&& new_uploads.last().1@ == (UploadTicketView {
                        sm_topic: spec_sm_topic(device),
                        clear_topic: msg.topic,
                    })
                },
            }
        },
    }
}

/// How the upload result of a `successful` snapshot command is answered.
pub open spec fn spec_finish_upload_outcome(
    old_uploads: Seq<(Seq<char>, UploadTicket)>,
    new_uploads: Seq<(Seq<char>, UploadTicket)>,
    cmd_id: Seq<char>,
    upload: Result<Seq<char>, Seq<char>>,
    effs: Seq<EffectView>,
) -> bool {
    match spec_table_get(old_uploads, cmd_id) {
        None => effs == Seq::<EffectView>::empty() && new_uploads == old_uploads,
        Some(t) => new_uploads == old_uploads.remove(
            crate::table::spec_index_of_key(old_uploads, cmd_id),
        ) && effs == match upload {
            Ok(url) => seq![
                EffectView::Publish(
                    spec_sm_message(
                        t@.sm_topic,
                        spec_successful_frame(
                            CumulocitySupportedOperations::C8yUploadConfigFile,
                            Some(url),
                        ),
                    ),
                ),
                EffectView::Publish(spec_clear_message(t@.clear_topic)),
            ],
            Err(err) => seq![
                EffectView::Publish(
                    spec_sm_message(
                        t@.sm_topic,
                        spec_failed_frame(
                            CumulocitySupportedOperations::C8yUploadConfigFile,
                            CumulocityConverter::spec_upload_failed_reason(err),
                        ),
                    ),
                ),
                EffectView::Publish(spec_clear_message(t@.clear_topic)),
            ],
        },
    }
}

/// How a `524` cloud request is answered, under some freshly minted command
/// id.
pub open spec fn spec_update_request_outcome(
    cv: ConfigView,
    store: Seq<EntityView>,
    old_downloads: Seq<(Seq<char>, SmartRestConfigDownloadRequest)>,
    new_downloads: Seq<(Seq<char>, SmartRestConfigDownloadRequest)>,
    smartrest: Seq<char>,
    cache_hit: bool,
    r: Result<Seq<EffectView>, MapperError>,
) -> bool {
    &&& !cv.config_update ==> (r matches Ok(effs) && effs == Seq::<EffectView>::empty()
        && new_downloads == old_downloads)
    &&& cv.config_update ==> match r {
        Err(e) => new_downloads == old_downloads && match e {
            MapperError::SmartRestParse => spec_download_request(smartrest) is None,
            MapperError::UnknownDevice { device_id } => {
                &&& spec_download_request(smartrest) matches Some(req)
                &&& req.0 == device_id@
                &&& spec_find_by_external(store, req.0) is None
            },
            _ => false,
        },
        Ok(effs) => {
            &&& spec_download_request(smartrest) matches Some(req)
            &&& spec_find_by_external(store, req.0) matches Some(target)
            &&& exists|cmd_id: Seq<char>|
                #![auto]
                ((forall|i: int| 0 <= i < cmd_id.len() ==> is_id_char(cmd_id[i])) && effs
                    == spec_update_request_effects(cv, target, req, cache_hit, cmd_id) && (
                cache_hit ==> new_downloads == old_downloads) && (!cache_hit ==> new_downloads
                    == old_downloads.push((cmd_id, new_downloads.last().1))
                    && new_downloads.last().1@ == req))
        },
    }
}

/// How a download worker's answer resumes (or ends) a config update.
pub open spec fn spec_download_result_outcome(
    cv: ConfigView,
    store: Seq<EntityView>,
    old_downloads: Seq<(Seq<char>, SmartRestConfigDownloadRequest)>,
    new_downloads: Seq<(Seq<char>, SmartRestConfigDownloadRequest)>,
    cmd_id: Seq<char>,
    download: Result<Seq<char>, Seq<char>>,
    r: Result<Seq<EffectView>, MapperError>,
) -> bool {
    match spec_table_get(old_downloads, cmd_id) {
        None => new_downloads == old_downloads && (r matches Ok(effs) && effs
            == Seq::<EffectView>::empty()),
        Some(req) => new_downloads == old_downloads.remove(
            crate::table::spec_index_of_key(old_downloads, cmd_id),
        ) && match spec_find_by_external(store, req@.0) {
            None => r matches Err(MapperError::UnknownDevice { device_id }) && device_id@
                == req@.0,
            Some(target) => r matches Ok(effs) && effs == match download {
                Ok(path) => seq![
                    EffectView::CreateSymlink {
                        link: spec_file_transfer_path(
                            cv.data_dir,
                            target.external_id,
                            OperationType::ConfigUpdate,
                            req@.2,
                            cmd_id,
                        ),
                        target: path,
                    },
                    spec_init_cmd_effects(
                        cv,
                        target,
                        OperationType::ConfigUpdate,
                        req@.2,
                        Some(req@.1),
                        cmd_id,
                    )[0],
                ],
                Err(err) => seq![
                    EffectView::Publish(
                        spec_sm_message(
                            spec_sm_topic(target),
                            spec_executing_frame(
                                CumulocitySupportedOperations::C8yDownloadConfigFile,
                            ),
                        ),
                    ),
                    EffectView::Publish(
                        spec_sm_message(
                            spec_sm_topic(target),
                            spec_failed_frame(
                                CumulocitySupportedOperations::C8yDownloadConfigFile,
                                CumulocityConverter::spec_download_failed_reason(req@.1, err),
                            ),
                        ),
                    ),
                ],
            },
        },
    }
}

/// What a terminal transition of a config update emits: its frame, the
/// retained clear, and the removal of the command's symlink — the effects the
/// `successful` and `failed` arms of the update state machine produce.
pub open spec fn spec_update_terminal_effects(
    cv: ConfigView,
    device: EntityView,
    config_type: Seq<char>,
    cmd_id: Seq<char>,
    topic: Seq<char>,
    failure: Option<Seq<char>>,
) -> Seq<EffectView> {
    seq![
        EffectView::Publish(
            spec_sm_message(
                crate::converter::spec_sm_topic(device),
                match failure {
                    None => spec_successful_frame(
                        CumulocitySupportedOperations::C8yDownloadConfigFile,
                        None,
                    ),
                    Some(reason) => spec_failed_frame(
                        CumulocitySupportedOperations::C8yDownloadConfigFile,
                        reason,
                    ),
                },
            ),
        ),
        EffectView::Publish(spec_clear_message(topic)),
        EffectView::RemoveSymlink {
            path: spec_file_transfer_path(
                cv.data_dir,
                device.external_id,
                OperationType::ConfigUpdate,
                config_type,
                cmd_id,
            ),
        },
    ]
}

/// How a command progress message on a config update command is answered.
pub open spec fn spec_update_state_outcome(
    cv: ConfigView,
    store: Seq<EntityView>,
    tid: (Seq<char>, Seq<char>),
    cmd_id: Seq<char>,
    msg: MqttMessageView,
    r: Result<Seq<EffectView>, MapperError>,
) -> bool {
    &&& !cv.config_update ==> (r matches Ok(effs) && effs == Seq::<EffectView>::empty())
    &&& cv.config_update ==> match r {
        Err(e) => match e {
            MapperError::UnregisteredDevice { topic_id: t } => t@ == spec_entity_segment(tid)
                && spec_find_by_topic(store, tid) is None,
            MapperError::JsonParse => spec_find_by_topic(store, tid) is Some
                && spec_command_payload(msg.payload) is None,
            _ => false,
        },
        Ok(effs) => {
            &&& spec_find_by_topic(store, tid) matches Some(device)
            &&& spec_command_payload(msg.payload) matches Some(p)
            &&& match p.status {
                CommandStatusView::Init => effs == Seq::<EffectView>::empty(),
                CommandStatusView::Executing => effs == seq![
                    EffectView::Publish(
                        spec_sm_message(
                            spec_sm_topic(device),
                            spec_executing_frame(
                                CumulocitySupportedOperations::C8yDownloadConfigFile,
                            ),
                        ),
                    ),
                ],
                CommandStatusView::Successful => effs == spec_update_terminal_effects(
                    cv,
                    device,
                    p.config_type,
                    cmd_id,
                    msg.topic,
                    None,
                ),
                CommandStatusView::Failed { reason } => effs == spec_update_terminal_effects(
                    cv,
                    device,
                    p.config_type,
                    cmd_id,
                    msg.topic,
                    Some(reason),
                ),
            }
        },
    }
}

impl CumulocityConverter {
    /// The converter's invariant: its entity store is well formed.
    pub open spec fn wf(&self) -> bool {
        self.entity_store.wf()
    }

    /// A fresh converter: the main device is registered, nothing is pending.
    pub fn new(config: C8yMapperConfig) -> (r: CumulocityConverter)
        ensures
            r.wf(),
            r.config@ == config@,
            r.entity_store@.len() == 1,
            r.entity_store@[0].topic_id == ("main"@, Seq::<char>::empty()),
            r.entity_store@[0].external_id == config.device_id@,
            r.entity_store@[0].entity_type == EntityType::MainDevice,
            r.pending_downloads@ == Seq::<(Seq<char>, SmartRestConfigDownloadRequest)>::empty(),
            r.pending_uploads@ == Seq::<(Seq<char>, UploadTicket)>::empty(),
    {
        let main_external_id = config.device_id.clone();
        CumulocityConverter {
            config,
            entity_store: EntityStore::new(main_external_id),
            pending_downloads: Table::new(),
            pending_uploads: Table::new(),
        }
    }

    /// The cloud topic this entity's SmartREST frames go out on.
    pub fn smartrest_publish_topic_for_entity(&self, e: &crate::entity::Entity) -> (r: String)
        ensures
            r@ == spec_sm_topic(e@),
    {
        if matches!(e.entity_type, EntityType::MainDevice) {
            String::from_str("c8y/s/us")
        } else {
            let mut r = String::from_str("c8y/s/us/");
            r.append(e.external_id.as_str());
            r
        }
    }

    /// Translates a `526` cloud request into the retained init command, using
    /// the given command id.
    pub fn convert_config_snapshot_request_with_id(&self, smartrest: &str, cmd_id: &str) -> (r:
        Result<Vec<Effect>, MapperError>)
        ensures
            !self.config@.config_snapshot ==> (r matches Ok(effs) && effects_view(effs@)
                == Seq::<EffectView>::empty()),
            self.config@.config_snapshot ==> match r {
                Ok(effs) => {
                    &&& spec_upload_request(smartrest@) matches Some(req)
                    &&& spec_find_by_external(self.entity_store@, req.0) matches Some(target)
                    &&& effects_view(effs@) == spec_init_cmd_effects(
                        self.config@,
                        target,
                        OperationType::ConfigSnapshot,
                        req.1,
                        None,
                        cmd_id@,
                    )
                },
                Err(e) => match e {
                    MapperError::SmartRestParse => spec_upload_request(smartrest@) is None,
                    MapperError::UnknownDevice { device_id } => {
                        &&& spec_upload_request(smartrest@) matches Some(req)
                        &&& req.0 == device_id@
                        &&& spec_find_by_external(self.entity_store@, req.0) is None
                    },
                    _ => false,
                },
            },
    {
        if !self.config.capabilities.config_snapshot {
            let effs: Vec<Effect> = Vec::new();
            proof {
                assert(effects_view(effs@) =~= Seq::<EffectView>::empty());
            }
            return Ok(effs);
        }
        let req = match SmartRestConfigUploadRequest::from_smartrest(smartrest) {
            Err(e) => {
                return Err(e);
            },
            Ok(req) => req,
        };
        match self.entity_store.get_by_external_id(req.device.as_str()) {
            None => Err(MapperError::UnknownDevice { device_id: req.device }),
            Some(target) => {
                let topic = crate::topics::command_topic(
                    &target.topic_id,
                    OperationType::ConfigSnapshot,
                    cmd_id,
                );
                let url = tedge_url(
                    self.config.tedge_http_host.as_str(),
                    target.external_id.as_str(),
                    OperationType::ConfigSnapshot,
                    req.config_type.as_str(),
                    cmd_id,
                );
                let payload = crate::payloads::snapshot_init_payload(
                    url.as_str(),
                    req.config_type.as_str(),
                );
                let msg = MqttMessage::new(topic, payload).with_retain();
                let mut effs: Vec<Effect> = Vec::new();
                effs.push(Effect::Publish(msg));
                proof {
                    assert(effects_view(effs@) =~= spec_init_cmd_effects(
                        self.config@,
                        spec_find_by_external(self.entity_store@, req.device@).unwrap(),
                        OperationType::ConfigSnapshot,
                        req.config_type@,
                        None,
                        cmd_id@,
                    ));
                }
                Ok(effs)
            },
        }
    }

    /// Translates a `526` cloud request into the retained init command, under
    /// a freshly minted command id.
    pub fn convert_config_snapshot_request(&self, smartrest: &str) -> (r: Result<
        Vec<Effect>,
        MapperError,
    >)
        ensures
            spec_snapshot_request_outcome(
                self.config@,
                self.entity_store@,
                smartrest@,
                spec_result_view(r),
            ),
    {
        let cmd_id = crate::ids::mint_cmd_id();
        self.convert_config_snapshot_request_with_id(smartrest, cmd_id.as_str())
    }

    /// Follows a config snapshot command through its lifecycle: `executing`
    /// becomes a `501` frame; `failed` a `502` frame plus the retained clear;
    /// `successful` asks the shell to upload the staged file and records the
    /// ticket for [`Self::finish_config_snapshot_upload`]; anything else is
    /// left to other subsystems.
    pub fn handle_config_snapshot_state_change(
        &mut self,
        topic_id: &TopicId,
        cmd_id: &str,
        message: &MqttMessage,
    ) -> (r: Result<Vec<Effect>, MapperError>)
        ensures
            final(self).config == old(self).config,
            final(self).entity_store == old(self).entity_store,
            final(self).pending_downloads == old(self).pending_downloads,
            spec_snapshot_state_outcome(
                old(self).config@,
                old(self).entity_store@,
                old(self).pending_uploads@,
                final(self).pending_uploads@,
                topic_id@,
                cmd_id@,
                message@,
                spec_result_view(r),
            ),
    {
        if !self.config.capabilities.config_snapshot {
            let effs: Vec<Effect> = Vec::new();
            proof {
                assert(effects_view(effs@) =~= Seq::<EffectView>::empty());
            }
            return Ok(effs);
        }
        let device = match self.entity_store.get(topic_id) {
            None => {
                return Err(
                    MapperError::UnregisteredDevice {
                        topic_id: crate::topics::entity_segment(topic_id),
                    },
                );
            },
            Some(device) => device,
        };
        let sm_topic = self.smartrest_publish_topic_for_entity(device);
        let payload = match crate::payloads::parse_command_payload(message.payload.as_str()) {
            Err(e) => {
                return Err(e);
            },
            Ok(p) => p,
        };
        match payload.status {
            CommandStatus::Init => {
                let effs: Vec<Effect> = Vec::new();
                proof {
                    assert(effects_view(effs@) =~= Seq::<EffectView>::empty());
                }
                Ok(effs)
            },
            CommandStatus::Executing => {
                let frame = crate::smartrest::set_operation_executing(
                    CumulocitySupportedOperations::C8yUploadConfigFile,
                );
                let mut effs: Vec<Effect> = Vec::new();
                effs.push(Effect::Publish(MqttMessage::new(sm_topic, frame)));
                proof {
                    assert(effects_view(effs@) =~= seq![effs@[0]@]);
                }
                Ok(effs)
            },
            CommandStatus::Failed { reason } => {
                let frame = crate::smartrest::set_operation_failed(
                    CumulocitySupportedOperations::C8yUploadConfigFile,
                    reason.as_str(),
                );
                let clear = MqttMessage::new(
                    message.topic.clone(),
                    String::new(),
                ).with_retain();
                let mut effs: Vec<Effect> = Vec::new();
                effs.push(Effect::Publish(MqttMessage::new(sm_topic, frame)));
                effs.push(Effect::Publish(clear));
                proof {
                    assert(effects_view(effs@) =~= seq![effs@[0]@, effs@[1]@]);
                }
                Ok(effs)
            },
            CommandStatus::Successful => {
                let file_path = file_transfer_path(
                    self.config.data_dir.as_str(),
                    device.external_id.as_str(),
                    OperationType::ConfigSnapshot,
                    payload.config_type.as_str(),
                    cmd_id,
                );
                let external_id = device.external_id.clone();
                let ticket = UploadTicket { sm_topic, clear_topic: message.topic.clone() };
                let mut effs: Vec<Effect> = Vec::new();
                effs.push(
                    Effect::Upload {
                        cmd_id: String::from_str(cmd_id),
                        file_path,
                        config_type: payload.config_type,
                        external_id,
                    },
                );
                self.pending_uploads.insert(String::from_str(cmd_id), ticket);
                proof {
                    assert(effects_view(effs@) =~= seq![effs@[0]@]);
                }
                Ok(effs)
            },
        }
    }

    /// The reason a `502` frame carries when the upload itself failed.
    pub open spec fn spec_upload_failed_reason(err: Seq<char>) -> Seq<char> {
        "Upload failed with "@ + err
    }

    /// Answers the cloud once the shell finished (or failed) the upload a
    /// `successful` snapshot command asked for.  The pending ticket is removed
    /// either way; an unknown command id produces nothing.
    pub fn finish_config_snapshot_upload(
        &mut self,
        cmd_id: &str,
        upload: Result<&str, &str>,
    ) -> (effs: Vec<Effect>)
        ensures
            final(self).config == old(self).config,
            final(self).entity_store == old(self).entity_store,
            final(self).pending_downloads == old(self).pending_downloads,
            spec_finish_upload_outcome(
                old(self).pending_uploads@,
                final(self).pending_uploads@,
                cmd_id@,
                match upload {
                    Ok(u) => Ok(u@),
                    Err(e) => Err(e@),
                },
                effects_view(effs@),
            ),
    {
        let ticket = match self.pending_uploads.take(cmd_id) {
            None => {
                let effs: Vec<Effect> = Vec::new();
                proof {
                    assert(effects_view(effs@) =~= Seq::<EffectView>::empty());
                }
                return effs;
            },
            Some(t) => t,
        };
        let frame = match upload {
            Ok(url) => crate::smartrest::set_operation_successful(
                CumulocitySupportedOperations::C8yUploadConfigFile,
                Some(url),
            ),
            Err(err) => {
                let mut reason = String::from_str("Upload failed with ");
                reason.append(err);
                crate::smartrest::set_operation_failed(
                    CumulocitySupportedOperations::C8yUploadConfigFile,
                    reason.as_str(),
                )
            },
        };
        let clear = MqttMessage::new(ticket.clear_topic, String::new()).with_retain();
        let mut effs: Vec<Effect> = Vec::new();
        effs.push(Effect::Publish(MqttMessage::new(ticket.sm_topic, frame)));
        effs.push(Effect::Publish(clear));
        proof {
            assert(effects_view(effs@) =~= seq![effs@[0]@, effs@[1]@]);
        }
        effs
    }

    /// The retained init command that resumes a config update once its file
    /// is staged.
    fn create_config_update_cmd(
        &self,
        cmd_id: &str,
        request: &SmartRestConfigDownloadRequest,
        target: &crate::entity::Entity,
    ) -> (r: Effect)
        ensures
            r@ == spec_init_cmd_effects(
                self.config@,
                target@,
                OperationType::ConfigUpdate,
                request@.2,
                Some(request@.1),
                cmd_id@,
            )[0],
    {
        let topic = crate::topics::command_topic(
            &target.topic_id,
            OperationType::ConfigUpdate,
            cmd_id,
        );
        let url = tedge_url(
            self.config.tedge_http_host.as_str(),
            target.external_id.as_str(),
            OperationType::ConfigUpdate,
            request.config_type.as_str(),
            cmd_id,
        );
        let payload = crate::payloads::update_init_payload(
            url.as_str(),
            request.url.as_str(),
            request.config_type.as_str(),
        );
        Effect::Publish(MqttMessage::new(topic, payload).with_retain())
    }

    /// The symlink that exposes one command's staged file.
    fn create_symlink_for_config_update(
        &self,
        entity: &crate::entity::Entity,
        config_type: &str,
        cmd_id: &str,
        original: &str,
    ) -> (r: Effect)
        ensures
            r@ == (EffectView::CreateSymlink {
                link: spec_file_transfer_path(
                    self.config@.data_dir,
                    entity@.external_id,
                    OperationType::ConfigUpdate,
                    config_type@,
                    cmd_id@,
                ),
                target: original@,
            }),
    {
        let link = file_transfer_path(
            self.config.data_dir.as_str(),
            entity.external_id.as_str(),
            OperationType::ConfigUpdate,
            config_type,
            cmd_id,
        );
        Effect::CreateSymlink { link, target: String::from_str(original) }
    }

    /// The removal of that symlink, on a terminal transition.
    fn delete_symlink_for_config_update(
        &self,
        entity: &crate::entity::Entity,
        config_type: &str,
        cmd_id: &str,
    ) -> (r: Effect)
        ensures
            r@ == (EffectView::RemoveSymlink {
                path: spec_file_transfer_path(
                    self.config@.data_dir,
                    entity@.external_id,
                    OperationType::ConfigUpdate,
                    config_type@,
                    cmd_id@,
                ),
            }),
    {
        let path = file_transfer_path(
            self.config.data_dir.as_str(),
            entity.external_id.as_str(),
            OperationType::ConfigUpdate,
            config_type,
            cmd_id,
        );
        Effect::RemoveSymlink { path }
    }

    /// Where a `524` request's file would be cached, so that the shell can
    /// probe for a cache hit before
    /// [`Self::convert_config_update_request`] decides.  `None` when the
    /// capability is disabled.
    pub fn config_update_cache_path(&self, smartrest: &str) -> (r: Result<
        Option<String>,
        MapperError,
    >)
        ensures
            !self.config@.config_update ==> (r matches Ok(p) && p is None),
            self.config@.config_update ==> match r {
                Ok(p) => {
                    &&& p matches Some(path)
                    &&& spec_download_request(smartrest@) matches Some(req)
                    &&& spec_find_by_external(self.entity_store@, req.0) is Some
                    &&& path@ == spec_cache_path(self.config@.data_dir, req.1)
                },
                Err(e) => match e {
                    MapperError::SmartRestParse => spec_download_request(smartrest@) is None,
                    MapperError::UnknownDevice { device_id } => {
                        &&& spec_download_request(smartrest@) matches Some(req)
                        &&& req.0 == device_id@
                        &&& spec_find_by_external(self.entity_store@, req.0) is None
                    },
                    _ => false,
                },
            },
    {
        if !self.config.capabilities.config_update {
            return Ok(None);
        }
        let req = match SmartRestConfigDownloadRequest::from_smartrest(smartrest) {
            Err(e) => {
                return Err(e);
            },
            Ok(req) => req,
        };
        if self.entity_store.get_by_external_id(req.device.as_str()).is_none() {
            return Err(MapperError::UnknownDevice { device_id: req.device });
        }
        Ok(Some(cache_path(self.config.data_dir.as_str(), req.url.as_str())))
    }

    /// Translates a `524` cloud request, using the given command id.  On a
    /// cache hit the symlink and the retained init command are produced in
    /// this same step and nothing is downloaded; otherwise the download is
    /// dispatched, the request is parked under the command id, and no MQTT
    /// output is produced yet.
    pub fn convert_config_update_request_with_id(
        &mut self,
        smartrest: &str,
        cache_hit: bool,
        cmd_id: &str,
    ) -> (r: Result<Vec<Effect>, MapperError>)
        ensures
            final(self).config == old(self).config,
            final(self).entity_store == old(self).entity_store,
            final(self).pending_uploads == old(self).pending_uploads,
            !old(self).config@.config_update ==> (r matches Ok(effs) && effects_view(effs@)
                == Seq::<EffectView>::empty() && final(self).pending_downloads == old(self).pending_downloads),
            old(self).config@.config_update ==> match r {
                Err(e) => final(self).pending_downloads == old(self).pending_downloads && match e {
                    MapperError::SmartRestParse => spec_download_request(smartrest@) is None,
                    MapperError::UnknownDevice { device_id } => {
                        &&& spec_download_request(smartrest@) matches Some(req)
                        &&& req.0 == device_id@
                        &&& spec_find_by_external(old(self).entity_store@, req.0) is None
                    },
                    _ => false,
                },
                Ok(effs) => {
                    &&& spec_download_request(smartrest@) matches Some(req)
                    &&& spec_find_by_external(old(self).entity_store@, req.0) matches Some(target)
                    &&& effects_view(effs@) == spec_update_request_effects(
                        old(self).config@,
                        target,
                        req,
                        cache_hit,
                        cmd_id@,
                    )
                    &&& cache_hit ==> final(self).pending_downloads == old(self).pending_downloads
                    &&& !cache_hit ==> final(self).pending_downloads@ == old(self).pending_downloads@.push(
                        (cmd_id@, final(self).pending_downloads@.last().1),
                    ) && final(self).pending_downloads@.last().1@ == req
                },
            },
    {
        if !self.config.capabilities.config_update {
            let effs: Vec<Effect> = Vec::new();
            proof {
                assert(effects_view(effs@) =~= Seq::<EffectView>::empty());
            }
            return Ok(effs);
        }
        let req = match SmartRestConfigDownloadRequest::from_smartrest(smartrest) {
            Err(e) => {
                return Err(e);
            },
            Ok(req) => req,
        };
        let dest = cache_path(self.config.data_dir.as_str(), req.url.as_str());
        match self.entity_store.get_by_external_id(req.device.as_str()) {
            None => Err(MapperError::UnknownDevice { device_id: req.device }),
            Some(target) => {
                if cache_hit {
                    let symlink = self.create_symlink_for_config_update(
                        target,
                        req.config_type.as_str(),
                        cmd_id,
                        dest.as_str(),
                    );
                    let init_cmd = self.create_config_update_cmd(cmd_id, &req, target);
                    let mut effs: Vec<Effect> = Vec::new();
                    effs.push(symlink);
                    effs.push(init_cmd);
                    proof {
                        assert(effects_view(effs@) =~= seq![effs@[0]@, effs@[1]@]);
                    }
                    Ok(effs)
                } else {
                    let mut effs: Vec<Effect> = Vec::new();
                    effs.push(
                        Effect::Download {
                            cmd_id: String::from_str(cmd_id),
                            url: req.url.clone(),
                            dest,
                        },
                    );
                    self.pending_downloads.insert(String::from_str(cmd_id), req);
                    proof {
                        assert(effects_view(effs@) =~= seq![effs@[0]@]);
                    }
                    Ok(effs)
                }
            },
        }
    }

    /// Translates a `524` cloud request under a freshly minted command id.
    pub fn convert_config_update_request(&mut self, smartrest: &str, cache_hit: bool) -> (r:
        Result<Vec<Effect>, MapperError>)
        ensures
            final(self).config == old(self).config,
            final(self).entity_store == old(self).entity_store,
            final(self).pending_uploads == old(self).pending_uploads,
            spec_update_request_outcome(
                old(self).config@,
                old(self).entity_store@,
                old(self).pending_downloads@,
                final(self).pending_downloads@,
                smartrest@,
                cache_hit,
                spec_result_view(r),
            ),
    {
        let cmd_id = crate::ids::mint_cmd_id();
        self.convert_config_update_request_with_id(smartrest, cache_hit, cmd_id.as_str())
    }

    /// The reason a `502` frame carries when the download itself failed.
    pub open spec fn spec_download_failed_reason(url: Seq<char>, err: Seq<char>) -> Seq<char> {
        "Download from "@ + url + " failed with "@ + err
    }

    /// Resumes a config update once the download worker answered.  On success
    /// the symlink and the retained init command appear now; on failure the
    /// operation ends with `501` then `502` on the cloud topic and no local
    /// command is ever created.  The pending entry is removed either way; an
    /// unknown command id produces nothing.
    pub fn process_download_result_for_config_update(
        &mut self,
        cmd_id: &str,
        download: Result<&str, &str>,
    ) -> (r: Result<Vec<Effect>, MapperError>)
        ensures
            final(self).config == old(self).config,
            final(self).entity_store == old(self).entity_store,
            final(self).pending_uploads == old(self).pending_uploads,
            spec_download_result_outcome(
                old(self).config@,
                old(self).entity_store@,
                old(self).pending_downloads@,
                final(self).pending_downloads@,
                cmd_id@,
                match download {
                    Ok(u) => Ok(u@),
                    Err(e) => Err(e@),
                },
                spec_result_view(r),
            ),
    {
        let req = match self.pending_downloads.take(cmd_id) {
            None => {
                let effs: Vec<Effect> = Vec::new();
                proof {
                    assert(effects_view(effs@) =~= Seq::<EffectView>::empty());
                }
                return Ok(effs);
            },
            Some(req) => req,
        };
        let target = match self.entity_store.get_by_external_id(req.device.as_str()) {
            None => {
                return Err(MapperError::UnknownDevice { device_id: req.device });
            },
            Some(target) => target,
        };
        match download {
            Ok(path) => {
                let symlink = self.create_symlink_for_config_update(
                    target,
                    req.config_type.as_str(),
                    cmd_id,
                    path,
                );
                let init_cmd = self.create_config_update_cmd(cmd_id, &req, target);
                let mut effs: Vec<Effect> = Vec::new();
                effs.push(symlink);
                effs.push(init_cmd);
                proof {
                    assert(effects_view(effs@) =~= seq![effs@[0]@, effs@[1]@]);
                }
                Ok(effs)
            },
            Err(err) => {
                let sm_topic = self.smartrest_publish_topic_for_entity(target);
                let executing = crate::smartrest::set_operation_executing(
                    CumulocitySupportedOperations::C8yDownloadConfigFile,
                );
                let mut reason = String::from_str("Download from ");
                reason.append(req.url.as_str());
                reason.append(" failed with ");
                reason.append(err);
                proof {
                    assert(reason@ =~= Self::spec_download_failed_reason(req.url@, err@));
                }
                let failed = crate::smartrest::set_operation_failed(
                    CumulocitySupportedOperations::C8yDownloadConfigFile,
                    reason.as_str(),
                );
                let mut effs: Vec<Effect> = Vec::new();
                effs.push(Effect::Publish(MqttMessage::new(sm_topic.clone(), executing)));
                effs.push(Effect::Publish(MqttMessage::new(sm_topic, failed)));
                proof {
                    assert(effects_view(effs@) =~= seq![effs@[0]@, effs@[1]@]);
                }
                Ok(effs)
            },
        }
    }

    /// Follows a config update command through its lifecycle: `executing`
    /// becomes a `501` frame; `successful` and `failed` become their frame,
    /// the retained clear, and the removal of the command's symlink; anything
    /// else is left to other subsystems.  The cache entry is never removed.
    pub fn handle_config_update_state_change(
        &self,
        topic_id: &TopicId,
        cmd_id: &str,
        message: &MqttMessage,
    ) -> (r: Result<Vec<Effect>, MapperError>)
        ensures
            spec_update_state_outcome(
                self.config@,
                self.entity_store@,
                topic_id@,
                cmd_id@,
                message@,
                spec_result_view(r),
            ),
    {
        if !self.config.capabilities.config_update {
            let effs: Vec<Effect> = Vec::new();
            proof {
                assert(effects_view(effs@) =~= Seq::<EffectView>::empty());
            }
            return Ok(effs);
        }
        let device = match self.entity_store.get(topic_id) {
            None => {
                return Err(
                    MapperError::UnregisteredDevice {
                        topic_id: crate::topics::entity_segment(topic_id),
                    },
                );
            },
            Some(device) => device,
        };
        let sm_topic = self.smartrest_publish_topic_for_entity(device);
        let payload = match crate::payloads::parse_command_payload(message.payload.as_str()) {
            Err(e) => {
                return Err(e);
            },
            Ok(p) => p,
        };
        match payload.status {
            CommandStatus::Init => {
                let effs: Vec<Effect> = Vec::new();
                proof {
                    assert(effects_view(effs@) =~= Seq::<EffectView>::empty());
                }
                Ok(effs)
            },
            CommandStatus::Executing => {
                let frame = crate::smartrest::set_operation_executing(
                    CumulocitySupportedOperations::C8yDownloadConfigFile,
                );
                let mut effs: Vec<Effect> = Vec::new();
                effs.push(Effect::Publish(MqttMessage::new(sm_topic, frame)));
                proof {
                    assert(effects_view(effs@) =~= seq![effs@[0]@]);
                }
                Ok(effs)
            },
            CommandStatus::Successful => {
                let frame = crate::smartrest::set_operation_successful(
                    CumulocitySupportedOperations::C8yDownloadConfigFile,
                    None,
                );
                let clear = MqttMessage::new(
                    message.topic.clone(),
                    String::new(),
                ).with_retain();
                let symlink = self.delete_symlink_for_config_update(
                    device,
                    payload.config_type.as_str(),
                    cmd_id,
                );
                let mut effs: Vec<Effect> = Vec::new();
                effs.push(Effect::Publish(MqttMessage::new(sm_topic, frame)));
                effs.push(Effect::Publish(clear));
                effs.push(symlink);
                proof {
                    assert(effects_view(effs@) =~= spec_update_terminal_effects(
                        self.config@,
                        spec_find_by_topic(self.entity_store@, topic_id@).unwrap(),
                        payload.config_type@,
                        cmd_id@,
                        message@.topic,
                        None,
                    ));
                }
                Ok(effs)
            },
            CommandStatus::Failed { reason } => {
                let frame = crate::smartrest::set_operation_failed(
                    CumulocitySupportedOperations::C8yDownloadConfigFile,
                    reason.as_str(),
                );
                let clear = MqttMessage::new(
                    message.topic.clone(),
                    String::new(),
                ).with_retain();
                let symlink = self.delete_symlink_for_config_update(
                    device,
                    payload.config_type.as_str(),
                    cmd_id,
                );
                let mut effs: Vec<Effect> = Vec::new();
                effs.push(Effect::Publish(MqttMessage::new(sm_topic, frame)));
                effs.push(Effect::Publish(clear));
                effs.push(symlink);
                proof {
                    assert(effects_view(effs@) =~= spec_update_terminal_effects(
                        self.config@,
                        spec_find_by_topic(self.entity_store@, topic_id@).unwrap(),
                        payload.config_type@,
                        cmd_id@,
                        message@.topic,
                        Some(reason@),
                    ));
                }
                Ok(effs)
            },
        }
    }
}

/// Which entities may declare config capabilities: the main device and the
/// children directly under it.  Services and deeper children are dropped.
pub open spec fn spec_metadata_eligible(device: EntityView) -> bool {
    ||| device.entity_type == EntityType::MainDevice
    ||| (device.entity_type == EntityType::ChildDevice && (device.parent matches Some(p)
        && crate::topics::spec_is_default_main(p)))
}

/// Where an eligible entity's capability markers live.
pub open spec fn spec_marker_dir(cv: ConfigView, device: EntityView) -> Seq<char> {
    if device.entity_type == EntityType::MainDevice {
        cv.ops_dir
    } else {
        cv.ops_dir + "/"@ + device.external_id
    }
}

/// What a metadata message from an eligible entity causes: the marker file
/// and the `119` frame listing the types in ascending lexicographic order.
pub open spec fn spec_metadata_effects(
    cv: ConfigView,
    device: EntityView,
    op: CumulocitySupportedOperations,
    types: Seq<Seq<char>>,
) -> Seq<EffectView> {
    seq![
        EffectView::CreateDirectory { path: spec_marker_dir(cv, device) },
        EffectView::CreateFile {
            path: spec_marker_dir(cv, device) + "/"@ + crate::smartrest::spec_op_name(op),
        },
        EffectView::Publish(
            spec_sm_message(
                spec_sm_topic(device),
                crate::smartrest::spec_types_frame(types.sort_by(crate::text::lex_leq_fn())),
            ),
        ),
    ]
}

/// How a metadata message is answered, whatever the entity.
pub open spec fn spec_metadata_outcome(
    cv: ConfigView,
    store: Seq<EntityView>,
    tid: (Seq<char>, Seq<char>),
    payload: Seq<char>,
    op: CumulocitySupportedOperations,
    r: Result<Seq<EffectView>, MapperError>,
) -> bool {
    match r {
        Err(e) => match e {
            MapperError::JsonParse => crate::payloads::spec_types_payload(payload) is None,
            MapperError::UnregisteredDevice { topic_id: t } => {
                &&& crate::payloads::spec_types_payload(payload) is Some
                &&& spec_find_by_topic(store, tid) is None
                &&& t@ == spec_entity_segment(tid)
            },
            _ => false,
        },
        Ok(effs) => {
            &&& crate::payloads::spec_types_payload(payload) matches Some(ts)
            &&& spec_find_by_topic(store, tid) matches Some(device)
            &&& if spec_metadata_eligible(device) {
                effs == spec_metadata_effects(cv, device, op, ts)
            } else {
                effs == Seq::<EffectView>::empty()
            }
        },
    }
}

impl CumulocityConverter {
    /// Declares one config capability for the entity a metadata message came
    /// from: the marker file under the operations root and the sorted `119`
    /// frame.  Services and children not directly under the main device are
    /// dropped.
    fn convert_config_metadata(
        &self,
        topic_id: &TopicId,
        message: &MqttMessage,
        op: CumulocitySupportedOperations,
    ) -> (r: Result<Vec<Effect>, MapperError>)
        ensures
            spec_metadata_outcome(
                self.config@,
                self.entity_store@,
                topic_id@,
                message@.payload,
                op,
                match r {
                    Ok(effs) => Ok(effects_view(effs@)),
                    Err(e) => Err(e),
                },
            ),
    {
        let types = match crate::payloads::parse_types_payload(message.payload.as_str()) {
            Err(e) => {
                return Err(e);
            },
            Ok(ts) => ts,
        };
        let device = match self.entity_store.get(topic_id) {
            None => {
                return Err(
                    MapperError::UnregisteredDevice {
                        topic_id: crate::topics::entity_segment(topic_id),
                    },
                );
            },
            Some(device) => device,
        };
        let dir: String = match device.entity_type {
            EntityType::MainDevice => self.config.ops_dir.clone(),
            EntityType::ChildDevice => {
                match &device.parent {
                    Some(p) => {
                        if p.is_default_main_device() {
                            let mut d = self.config.ops_dir.clone();
                            d.append("/");
                            d.append(device.external_id.as_str());
                            d
                        } else {
                            let effs: Vec<Effect> = Vec::new();
                            proof {
                                assert(effects_view(effs@) =~= Seq::<EffectView>::empty());
                            }
                            return Ok(effs);
                        }
                    },
                    None => {
                        let effs: Vec<Effect> = Vec::new();
                        proof {
                            assert(effects_view(effs@) =~= Seq::<EffectView>::empty());
                        }
                        return Ok(effs);
                    },
                }
            },
            EntityType::Service => {
                let effs: Vec<Effect> = Vec::new();
                proof {
                    assert(effects_view(effs@) =~= Seq::<EffectView>::empty());
                }
                return Ok(effs);
            },
        };
        let mut marker = dir.clone();
        marker.append("/");
        marker.append(op.name());
        let sorted = crate::text::sort_strings(types);
        let frame = crate::smartrest::supported_config_types_frame(&sorted);
        let sm_topic = self.smartrest_publish_topic_for_entity(device);
        let mut effs: Vec<Effect> = Vec::new();
        effs.push(Effect::CreateDirectory { path: dir });
        effs.push(Effect::CreateFile { path: marker });
        effs.push(Effect::Publish(MqttMessage::new(sm_topic, frame)));
        proof {
            assert(effects_view(effs@) =~= seq![effs@[0]@, effs@[1]@, effs@[2]@]);
        }
        Ok(effs)
    }

    /// Declares the snapshot capability from a config_snapshot metadata
    /// message; disabled capability produces nothing.
    pub fn convert_config_snapshot_metadata(
        &self,
        topic_id: &TopicId,
        message: &MqttMessage,
    ) -> (r: Result<Vec<Effect>, MapperError>)
        ensures
            !self.config@.config_snapshot ==> (r matches Ok(effs) && effects_view(effs@)
                == Seq::<EffectView>::empty()),
            self.config@.config_snapshot ==> spec_metadata_outcome(
                self.config@,
                self.entity_store@,
                topic_id@,
                message@.payload,
                CumulocitySupportedOperations::C8yUploadConfigFile,
                match r {
                    Ok(effs) => Ok(effects_view(effs@)),
                    Err(e) => Err(e),
                },
            ),
    {
        if !self.config.capabilities.config_snapshot {
            let effs: Vec<Effect> = Vec::new();
            proof {
                assert(effects_view(effs@) =~= Seq::<EffectView>::empty());
            }
            return Ok(effs);
        }
        self.convert_config_metadata(
            topic_id,
            message,
            CumulocitySupportedOperations::C8yUploadConfigFile,
        )
    }

    /// Declares the update capability from a config_update metadata message;
    /// disabled capability produces nothing.
    pub fn convert_config_update_metadata(
        &self,
        topic_id: &TopicId,
        message: &MqttMessage,
    ) -> (r: Result<Vec<Effect>, MapperError>)
        ensures
            !self.config@.config_update ==> (r matches Ok(effs) && effects_view(effs@)
                == Seq::<EffectView>::empty()),
            self.config@.config_update ==> spec_metadata_outcome(
                self.config@,
                self.entity_store@,
                topic_id@,
                message@.payload,
                CumulocitySupportedOperations::C8yDownloadConfigFile,
                match r {
                    Ok(effs) => Ok(effects_view(effs@)),
                    Err(e) => Err(e),
                },
            ),
    {
        if !self.config.capabilities.config_update {
            let effs: Vec<Effect> = Vec::new();
            proof {
                assert(effects_view(effs@) =~= Seq::<EffectView>::empty());
            }
            return Ok(effs);
        }
        self.convert_config_metadata(
            topic_id,
            message,
            CumulocitySupportedOperations::C8yDownloadConfigFile,
        )
    }
}

} // verus!
