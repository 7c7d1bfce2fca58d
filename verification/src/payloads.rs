//! The JSON payloads carried on command topics.
//!
//! A command's retained payload holds a `status`, the `type` of the config it
//! concerns, a `tedgeUrl` the device transfers the file through, for updates a
//! `remoteUrl`, and, when failed, a `reason`.

use vstd::prelude::*;
use vstd::string::*;

use crate::error::MapperError;
use crate::json::json_escape;
use crate::json::json_escaped;
use crate::json::lookup;
use crate::json::members_view;
use crate::json::parse_object;
use crate::json::spec_lookup;
use crate::json::spec_parse_object;
use crate::json::JsonValue;
use crate::json::JsonValueView;

verus! {

/// Where a command stands in its lifecycle.
pub enum CommandStatus {
    Init,
    Executing,
    Successful,
    Failed { reason: String },
}

/// The view of a [`CommandStatus`].
pub enum CommandStatusView {
    Init,
    Executing,
    Successful,
    Failed { reason: Seq<char> },
}

impl View for CommandStatus {
    type V = CommandStatusView;

    open spec fn view(&self) -> CommandStatusView {
        match self {
            CommandStatus::Init => CommandStatusView::Init,
            CommandStatus::Executing => CommandStatusView::Executing,
            CommandStatus::Successful => CommandStatusView::Successful,
            CommandStatus::Failed { reason } => CommandStatusView::Failed { reason: reason@ },
        }
    }
}

/// What this engine reads out of a command payload.
pub struct CommandPayload {
    pub status: CommandStatus,
    pub config_type: String,
}

/// The view of a [`CommandPayload`].
pub struct CommandPayloadView {
    pub status: CommandStatusView,
    pub config_type: Seq<char>,
}

impl View for CommandPayload {
    type V = CommandPayloadView;

    open spec fn view(&self) -> CommandPayloadView {
        CommandPayloadView { status: self.status@, config_type: self.config_type@ }
    }
}

/// The status named by a parsed payload; a failed status carries the payload's
/// `reason`, or an empty reason when none is given.
pub open spec fn spec_status_of(ms: Seq<(Seq<char>, JsonValueView)>) -> Option<CommandStatusView> {
    match spec_lookup(ms, "status"@) {
        Some(JsonValueView::Str(st)) => {
            if st == "init"@ {
                Some(CommandStatusView::Init)
            } else if st == "executing"@ {
                Some(CommandStatusView::Executing)
            } else if st == "successful"@ {
                Some(CommandStatusView::Successful)
            } else if st == "failed"@ {
                Some(
                    CommandStatusView::Failed {
                        reason: match spec_lookup(ms, "reason"@) {
                            Some(JsonValueView::Str(r)) => r,
                            _ => Seq::<char>::empty(),
                        },
                    },
                )
            } else {
                None
            }
        },
        _ => None,
    }
}

/// What a well-formed command payload holds: a known status and a config type.
pub open spec fn spec_command_payload(s: Seq<char>) -> Option<CommandPayloadView> {
    match spec_parse_object(s) {
        None => None,
        Some(ms) => match (spec_status_of(ms), spec_lookup(ms, "type"@)) {
            (Some(st), Some(JsonValueView::Str(t))) => Some(
                CommandPayloadView { status: st, config_type: t },
            ),
            _ => None,
        },
    }
}

/// Parses a command payload: its `status`, `type` and, when failed, `reason`.
pub fn parse_command_payload(s: &str) -> (r: Result<CommandPayload, MapperError>)
    ensures
        match r {
            Ok(p) => spec_command_payload(s@) == Some(p@),
            Err(e) => spec_command_payload(s@) is None && e is JsonParse,
        },
{
    let ms = match parse_object(s) {
        None => {
            return Err(MapperError::JsonParse);
        },
        Some(ms) => ms,
    };
    let status = match lookup(&ms, "status") {
        Some(JsonValue::Str(st)) => {
            if crate::text::str_eq(st.as_str(), "init") {
                CommandStatus::Init
            } else if crate::text::str_eq(st.as_str(), "executing") {
                CommandStatus::Executing
            } else if crate::text::str_eq(st.as_str(), "successful") {
                CommandStatus::Successful
            } else if crate::text::str_eq(st.as_str(), "failed") {
                let reason = match lookup(&ms, "reason") {
                    Some(JsonValue::Str(r)) => r.clone(),
                    _ => String::new(),
                };
                CommandStatus::Failed { reason }
            } else {
                return Err(MapperError::JsonParse);
            }
        },
        _ => {
            return Err(MapperError::JsonParse);
        },
    };
    let config_type = match lookup(&ms, "type") {
        Some(JsonValue::Str(t)) => t.clone(),
        _ => {
            return Err(MapperError::JsonParse);
        },
    };
    Ok(CommandPayload { status, config_type })
}

/// What a well-formed metadata payload holds: its list of config types.
pub open spec fn spec_types_payload(s: Seq<char>) -> Option<Seq<Seq<char>>> {
    match spec_parse_object(s) {
        None => None,
        Some(ms) => match spec_lookup(ms, "types"@) {
            Some(JsonValueView::StrList(ts)) => Some(ts),
            _ => None,
        },
    }
}

fn clone_strings(v: &Vec<String>) -> (r: Vec<String>)
    ensures
        r@ == v@,
{
    let mut r: Vec<String> = Vec::new();
    let mut i: usize = 0;
    while i < v.len()
        invariant
            i <= v@.len(),
            r@ == v@.subrange(0, i as int),
        decreases v@.len() - i,
    {
        r.push(v[i].clone());
        i = i + 1;
        assert(r@ =~= v@.subrange(0, i as int));
    }
    assert(v@.subrange(0, v@.len() as int) =~= v@);
    r
}

/// Parses a `{"types":[…]}` metadata payload.
pub fn parse_types_payload(s: &str) -> (r: Result<Vec<String>, MapperError>)
    ensures
        match r {
            Ok(ts) => spec_types_payload(s@) == Some(ts@.map_values(|t: String| t@)),
            Err(e) => spec_types_payload(s@) is None && e is JsonParse,
        },
{
    let ms = match parse_object(s) {
        None => {
            return Err(MapperError::JsonParse);
        },
        Some(ms) => ms,
    };
    match lookup(&ms, "types") {
        Some(JsonValue::StrList(ts)) => Ok(clone_strings(ts)),
        _ => Err(MapperError::JsonParse),
    }
}

/// The retained payload that opens a config snapshot command.
pub open spec fn spec_snapshot_init_payload(tedge_url: Seq<char>, config_type: Seq<char>) -> Seq<
    char,
> {
    "{\"status\":\"init\",\"tedgeUrl\":\""@ + json_escaped(tedge_url) + "\",\"type\":\""@
        + json_escaped(config_type) + "\"}"@
}

/// Serializes the payload that opens a config snapshot command.
pub fn snapshot_init_payload(tedge_url: &str, config_type: &str) -> (r: String)
    ensures
        r@ == spec_snapshot_init_payload(tedge_url@, config_type@),
{
    let mut r = String::from_str("{\"status\":\"init\",\"tedgeUrl\":\"");
    let u = json_escape(tedge_url);
    r.append(u.as_str());
    r.append("\",\"type\":\"");
    let t = json_escape(config_type);
    r.append(t.as_str());
    r.append("\"}");
    proof {
        assert(r@ =~= spec_snapshot_init_payload(tedge_url@, config_type@));
    }
    r
}

/// The retained payload that opens a config update command.
pub open spec fn spec_update_init_payload(
    tedge_url: Seq<char>,
    remote_url: Seq<char>,
    config_type: Seq<char>,
) -> Seq<char> {
    "{\"status\":\"init\",\"tedgeUrl\":\""@ + json_escaped(tedge_url) + "\",\"remoteUrl\":\""@
        + json_escaped(remote_url) + "\",\"type\":\""@ + json_escaped(config_type) + "\"}"@
}

/// Serializes the payload that opens a config update command.
pub fn update_init_payload(tedge_url: &str, remote_url: &str, config_type: &str) -> (r: String)
    ensures
        r@ == spec_update_init_payload(tedge_url@, remote_url@, config_type@),
{
    let mut r = String::from_str("{\"status\":\"init\",\"tedgeUrl\":\"");
    let u = json_escape(tedge_url);
    r.append(u.as_str());
    r.append("\",\"remoteUrl\":\"");
    let m = json_escape(remote_url);
    r.append(m.as_str());
    r.append("\",\"type\":\"");
    let t = json_escape(config_type);
    r.append(t.as_str());
    r.append("\"}");
    proof {
        assert(r@ =~= spec_update_init_payload(tedge_url@, remote_url@, config_type@));
    }
    r
}

} // verus!
