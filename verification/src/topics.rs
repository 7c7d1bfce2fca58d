//! The edge-bus topic grammar.
//!
//! Entity roots are `te/device/<device>//` for a device and
//! `te/device/<device>/service/<service>` for a service; command channels hang
//! off the root as `…/cmd/<operation>[/<cmd_id>]`.

use vstd::prelude::*;
use vstd::string::*;

use crate::text::split_seq;
use crate::text::split_str;
use crate::text::str_eq;

verus! {

/// The structured identifier of an entity on the edge bus: a device name and,
/// for services, the service name (empty otherwise).
pub struct TopicId {
    pub device: String,
    pub service: String,
}

impl View for TopicId {
    type V = (Seq<char>, Seq<char>);

    open spec fn view(&self) -> (Seq<char>, Seq<char>) {
        (self.device@, self.service@)
    }
}

impl TopicId {
    /// A device-only topic id.
    pub fn for_device(device: String) -> (r: TopicId)
        ensures
            r@ == (device@, Seq::<char>::empty()),
    {
        TopicId { device, service: String::new() }
    }

    /// Whether this identifier names a service rather than a device.
    pub fn is_service(&self) -> (r: bool)
        ensures
            r == (self@.1.len() != 0),
    {
        self.service.as_str().unicode_len() != 0
    }

    /// Whether this is the default main device, `device/main//`.
    pub fn is_default_main_device(&self) -> (r: bool)
        ensures
            r == spec_is_default_main(self@),
    {
        str_eq(self.device.as_str(), "main") && self.service.as_str().unicode_len() == 0
    }

    /// Whether two identifiers name the same entity.
    pub fn same(&self, other: &TopicId) -> (r: bool)
        ensures
            r == (self@ == other@),
    {
        str_eq(self.device.as_str(), other.device.as_str()) && str_eq(
            self.service.as_str(),
            other.service.as_str(),
        )
    }

    /// A copy of this identifier.
    pub fn duplicate(&self) -> (r: TopicId)
        ensures
            r@ == self@,
    {
        TopicId { device: self.device.clone(), service: self.service.clone() }
    }
}

/// The default main device is `device/main//`.
pub open spec fn spec_is_default_main(t: (Seq<char>, Seq<char>)) -> bool {
    t.0 == "main"@ && t.1.len() == 0
}

/// The four-segment entity part of a topic: `device/<d>//` or
/// `device/<d>/service/<s>`.
pub open spec fn spec_entity_segment(t: (Seq<char>, Seq<char>)) -> Seq<char> {
    if t.1.len() == 0 {
        "device/"@ + t.0 + "//"@
    } else {
        "device/"@ + t.0 + "/service/"@ + t.1
    }
}

/// Renders the four-segment entity part of a topic.
pub fn entity_segment(t: &TopicId) -> (r: String)
    ensures
        r@ == spec_entity_segment(t@),
{
    let mut r = String::from_str("device/");
    r.append(t.device.as_str());
    if t.service.as_str().unicode_len() == 0 {
        r.append("//");
    } else {
        r.append("/service/");
        r.append(t.service.as_str());
    }
    proof {
        assert(r@ =~= spec_entity_segment(t@));
    }
    r
}

/// The operations this engine drives on the edge bus.
#[derive(Clone, Copy, PartialEq, Eq, Structural, Debug)]
pub enum OperationType {
    ConfigSnapshot,
    ConfigUpdate,
}

/// The edge-bus name of an operation.
pub open spec fn spec_operation_name(op: OperationType) -> Seq<char> {
    match op {
        OperationType::ConfigSnapshot => "config_snapshot"@,
        OperationType::ConfigUpdate => "config_update"@,
    }
}

impl OperationType {
    /// The operation's segment in command topics.
    pub fn name(&self) -> (r: &'static str)
        ensures
            r@ == spec_operation_name(*self),
    {
        match self {
            OperationType::ConfigSnapshot => "config_snapshot",
            OperationType::ConfigUpdate => "config_update",
        }
    }
}

/// What part of an entity's topic tree a message arrived on.
pub enum Channel {
    /// The entity root itself: a registration message.
    EntityRegistration,
    /// A command instance: `…/cmd/<operation>/<cmd_id>`.
    Command { operation: OperationType, cmd_id: String },
    /// Command metadata: `…/cmd/<operation>` without a command id.
    CommandMetadata { operation: OperationType },
    /// Anything else under the entity root; other subsystems own it.
    Other,
}

/// The view of a [`Channel`], with the command id as a character sequence.
pub enum ChannelView {
    EntityRegistration,
    Command { operation: OperationType, cmd_id: Seq<char> },
    CommandMetadata { operation: OperationType },
    Other,
}

impl View for Channel {
    type V = ChannelView;

    open spec fn view(&self) -> ChannelView {
        match self {
            Channel::EntityRegistration => ChannelView::EntityRegistration,
            Channel::Command { operation, cmd_id } => ChannelView::Command {
                operation: *operation,
                cmd_id: cmd_id@,
            },
            Channel::CommandMetadata { operation } => ChannelView::CommandMetadata {
                operation: *operation,
            },
            Channel::Other => ChannelView::Other,
        }
    }
}

/// The operation named by an edge-bus segment, if this engine drives it.
pub open spec fn spec_operation_of(s: Seq<char>) -> Option<OperationType> {
    if s == "config_snapshot"@ {
        Some(OperationType::ConfigSnapshot)
    } else if s == "config_update"@ {
        Some(OperationType::ConfigUpdate)
    } else {
        None
    }
}

fn operation_of(s: &str) -> (r: Option<OperationType>)
    ensures
        r == spec_operation_of(s@),
{
    if str_eq(s, "config_snapshot") {
        Some(OperationType::ConfigSnapshot)
    } else if str_eq(s, "config_update") {
        Some(OperationType::ConfigUpdate)
    } else {
        None
    }
}

/// How an edge-bus topic decomposes into an entity and a channel, or nothing
/// for topics outside the `te/device/…` grammar.
pub open spec fn spec_parse_topic(s: Seq<char>) -> Option<
    ((Seq<char>, Seq<char>), ChannelView),
> {
    let segs = split_seq(s, '/');
    if segs.len() < 5 || segs[0] != "te"@ || segs[1] != "device"@ {
        None
    } else {
        let device = segs[2];
        if segs[3] == "service"@ && segs[4].len() != 0 {
            spec_parse_channel(segs, (device, segs[4]))
        } else if segs[3].len() == 0 && segs[4].len() == 0 {
            spec_parse_channel(segs, (device, Seq::<char>::empty()))
        } else {
            None
        }
    }
}

/// The channel part of a parsed topic: segments after the entity root.
pub open spec fn spec_parse_channel(segs: Seq<Seq<char>>, t: (Seq<char>, Seq<char>)) -> Option<
    ((Seq<char>, Seq<char>), ChannelView),
> {
    if segs.len() == 5 {
        Some((t, ChannelView::EntityRegistration))
    } else if segs[5] == "cmd"@ && segs.len() == 7 {
        match spec_operation_of(segs[6]) {
            Some(op) => Some((t, ChannelView::CommandMetadata { operation: op })),
            None => Some((t, ChannelView::Other)),
        }
    } else if segs[5] == "cmd"@ && segs.len() == 8 {
        match spec_operation_of(segs[6]) {
            Some(op) => Some((t, ChannelView::Command { operation: op, cmd_id: segs[7] })),
            None => Some((t, ChannelView::Other)),
        }
    } else {
        Some((t, ChannelView::Other))
    }
}

/// Parses an edge-bus topic into the entity it names and the channel within
/// that entity's tree.
pub fn parse_topic(s: &str) -> (r: Option<(TopicId, Channel)>)
    ensures
        match r {
            Some(p) => spec_parse_topic(s@) == Some((p.0@, p.1@)),
            None => spec_parse_topic(s@) is None,
        },
{
    let segs = split_str(s, '/');
    if segs.len() < 5 {
        return None;
    }
    if !str_eq(segs[0].as_str(), "te") || !str_eq(segs[1].as_str(), "device") {
        return None;
    }
    let device = segs[2].clone();
    let tid: TopicId;
    if str_eq(segs[3].as_str(), "service") && segs[4].as_str().unicode_len() != 0 {
        tid = TopicId { device, service: segs[4].clone() };
    } else if segs[3].as_str().unicode_len() == 0 && segs[4].as_str().unicode_len() == 0 {
        tid = TopicId { device, service: String::new() };
    } else {
        return None;
    }
    if segs.len() == 5 {
        return Some((tid, Channel::EntityRegistration));
    }
    if str_eq(segs[5].as_str(), "cmd") && segs.len() == 7 {
        match operation_of(segs[6].as_str()) {
            Some(op) => {
                return Some((tid, Channel::CommandMetadata { operation: op }));
            },
            None => {
                return Some((tid, Channel::Other));
            },
        }
    }
    if str_eq(segs[5].as_str(), "cmd") && segs.len() == 8 {
        match operation_of(segs[6].as_str()) {
            Some(op) => {
                let cmd_id = segs[7].clone();
                return Some((tid, Channel::Command { operation: op, cmd_id }));
            },
            None => {
                return Some((tid, Channel::Other));
            },
        }
    }
    Some((tid, Channel::Other))
}

/// The retained command topic for one command instance.
pub open spec fn spec_command_topic(
    t: (Seq<char>, Seq<char>),
    op: OperationType,
    cmd_id: Seq<char>,
) -> Seq<char> {
    "te/"@ + spec_entity_segment(t) + "/cmd/"@ + spec_operation_name(op) + "/"@ + cmd_id
}

/// Builds the command topic for an entity, an operation and a command id.
pub fn command_topic(t: &TopicId, op: OperationType, cmd_id: &str) -> (r: String)
    ensures
        r@ == spec_command_topic(t@, op, cmd_id@),
{
    let mut r = String::from_str("te/");
    r.append("device/");
    r.append(t.device.as_str());
    if t.service.as_str().unicode_len() == 0 {
        r.append("//");
    } else {
        r.append("/service/");
        r.append(t.service.as_str());
    }
    r.append("/cmd/");
    r.append(op.name());
    r.append("/");
    r.append(cmd_id);
    proof {
        assert(r@ =~= spec_command_topic(t@, op, cmd_id@));
    }
    r
}

/// Construction is the inverse of parsing: a command topic built from an
/// identifier whose parts hold no separator parses back to that identifier
/// and exactly that command channel.
#[verifier::rlimit(30)]
pub proof fn lemma_topic_round_trip(
    t: (Seq<char>, Seq<char>),
    op: OperationType,
    cmd_id: Seq<char>,
)
    requires
        !t.0.contains('/'),
        !t.1.contains('/'),
        !cmd_id.contains('/'),
    ensures
        spec_parse_topic(spec_command_topic(t, op, cmd_id)) == Some(
            (t, ChannelView::Command { operation: op, cmd_id }),
        ),
{
    reveal_strlit("te");
    reveal_strlit("te/");
    reveal_strlit("device");
    reveal_strlit("device/");
    reveal_strlit("//");
    reveal_strlit("/service/");
    reveal_strlit("service");
    reveal_strlit("/cmd/");
    reveal_strlit("cmd");
    reveal_strlit("/");
    reveal_strlit("config_snapshot");
    reveal_strlit("config_update");
    let sep: char = '/';
    let opname = spec_operation_name(op);
    let empty = Seq::<char>::empty();
    let full = spec_command_topic(t, op, cmd_id);

    assert(!"te"@.contains(sep));
    assert(!"device"@.contains(sep));
    assert(!"cmd"@.contains(sep));
    assert(!"service"@.contains(sep));
    assert(!opname.contains(sep)) by {
        match op {
            OperationType::ConfigSnapshot => {
                assert(forall|i: int|
                    0 <= i < "config_snapshot"@.len() ==> "config_snapshot"@[i] != sep);
            },
            OperationType::ConfigUpdate => {
                assert(forall|i: int|
                    0 <= i < "config_update"@.len() ==> "config_update"@[i] != sep);
            },
        }
    }
    assert(!empty.contains(sep));

    // Peel the topic into fields, one separator at a time.
    let r6 = opname + "/"@ + cmd_id;
    let r5 = "cmd"@ + seq![sep] + r6;
    let r4 = "/cmd/"@ + opname + "/"@ + cmd_id;
    assert(r6 =~= opname + seq![sep] + cmd_id);
    crate::text::lemma_split_no_sep(cmd_id, sep);
    crate::text::lemma_split_append(opname, cmd_id, sep);
    assert(split_seq(r6, sep) =~~= seq![opname, cmd_id]);
    crate::text::lemma_split_append("cmd"@, r6, sep);
    assert(split_seq(r5, sep) =~~= seq!["cmd"@, opname, cmd_id]);
    assert(r4 =~= empty + seq![sep] + r5);
    crate::text::lemma_split_append(empty, r5, sep);
    assert(split_seq(r4, sep) =~~= seq![empty, "cmd"@, opname, cmd_id]);

    if t.1.len() == 0 {
        let r3 = "/"@ + r4;
        let r2 = t.0 + "//"@ + r4;
        let r1 = "device/"@ + t.0 + "//"@ + r4;
        assert(r3 =~= empty + seq![sep] + r4);
        crate::text::lemma_split_append(empty, r4, sep);
        assert(split_seq(r3, sep) =~~= seq![empty, empty, "cmd"@, opname, cmd_id]);
        assert(r2 =~= t.0 + seq![sep] + r3);
        crate::text::lemma_split_append(t.0, r3, sep);
        assert(split_seq(r2, sep) =~~= seq![t.0, empty, empty, "cmd"@, opname, cmd_id]);
        assert(r1 =~= "device"@ + seq![sep] + r2);
        crate::text::lemma_split_append("device"@, r2, sep);
        assert(split_seq(r1, sep) =~~= seq!["device"@, t.0, empty, empty, "cmd"@, opname, cmd_id]);
        assert(full =~= "te"@ + seq![sep] + r1);
        crate::text::lemma_split_append("te"@, r1, sep);
        let segs = split_seq(full, sep);
        assert(segs =~~= seq!["te"@, "device"@, t.0, empty, empty, "cmd"@, opname, cmd_id]);
        assert(t =~~= (t.0, empty));
    } else {
        let r3 = "service"@ + seq![sep] + t.1 + r4;
        let r2 = t.0 + "/service/"@ + t.1 + r4;
        let r1 = "device/"@ + t.0 + "/service/"@ + t.1 + r4;
        assert(r3 =~= "service"@ + seq![sep] + (t.1 + r4));
        assert(t.1 + r4 =~= t.1 + seq![sep] + r5);
        crate::text::lemma_split_append(t.1, r5, sep);
        crate::text::lemma_split_append("service"@, t.1 + r4, sep);
        assert(split_seq(t.1 + r4, sep) =~~= seq![t.1, "cmd"@, opname, cmd_id]);
        assert(split_seq(r3, sep) =~~= seq!["service"@, t.1, "cmd"@, opname, cmd_id]);
        assert(r2 =~= t.0 + seq![sep] + r3);
        crate::text::lemma_split_append(t.0, r3, sep);
        assert(r1 =~= "device"@ + seq![sep] + r2);
        crate::text::lemma_split_append("device"@, r2, sep);
        assert(full =~= "te"@ + seq![sep] + r1);
        crate::text::lemma_split_append("te"@, r1, sep);
        let segs = split_seq(full, sep);
        assert(segs =~~= seq![
            "te"@,
            "device"@,
            t.0,
            "service"@,
            t.1,
            "cmd"@,
            opname,
            cmd_id,
        ]);
    }
    match op {
        OperationType::ConfigSnapshot => {
            assert(spec_operation_of(opname) == Some(OperationType::ConfigSnapshot));
        },
        OperationType::ConfigUpdate => {
            assert("config_update"@.len() != "config_snapshot"@.len());
            assert(spec_operation_of(opname) == Some(OperationType::ConfigUpdate));
        },
    }
}

/// The topic filters that deliver config snapshot commands and metadata.
pub fn config_snapshot_topic_filter() -> (r: Vec<String>)
    ensures
        r@.len() == 2,
        r@[0]@ == "te/+/+/+/+/cmd/config_snapshot"@,
        r@[1]@ == "te/+/+/+/+/cmd/config_snapshot/+"@,
{
    let mut r: Vec<String> = Vec::new();
    r.push(String::from_str("te/+/+/+/+/cmd/config_snapshot"));
    r.push(String::from_str("te/+/+/+/+/cmd/config_snapshot/+"));
    r
}

/// The topic filters that deliver config update commands and metadata.
pub fn config_update_topic_filter() -> (r: Vec<String>)
    ensures
        r@.len() == 2,
        r@[0]@ == "te/+/+/+/+/cmd/config_update"@,
        r@[1]@ == "te/+/+/+/+/cmd/config_update/+"@,
{
    let mut r: Vec<String> = Vec::new();
    r.push(String::from_str("te/+/+/+/+/cmd/config_update"));
    r.push(String::from_str("te/+/+/+/+/cmd/config_update/+"));
    r
}

} // verus!
