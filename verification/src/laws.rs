//! The engine's cross-cutting guarantees, stated once over the effect
//! specifications that the converter's contracts use.

use vstd::prelude::*;

use crate::converter::spec_clear_message;
use crate::converter::spec_file_transfer_path;
use crate::converter::spec_init_cmd_effects;
use crate::converter::spec_update_request_effects;
use crate::converter::spec_update_terminal_effects;
use crate::converter::ConfigView;
use crate::converter::EffectView;
use crate::entity::EntityView;
use crate::text::lex_le;
use crate::text::lex_leq_fn;
use crate::topics::OperationType;

verus! {

/// Command retention: every init command is published retained, and the
/// message that clears a command topic is empty, retained, and on that very
/// topic.
pub proof fn lemma_command_retention(
    cv: ConfigView,
    target: EntityView,
    op: OperationType,
    config_type: Seq<char>,
    remote_url: Option<Seq<char>>,
    cmd_id: Seq<char>,
    topic: Seq<char>,
)
    ensures
        spec_init_cmd_effects(cv, target, op, config_type, remote_url, cmd_id)[0] matches
            EffectView::Publish(m) && m.retain,
        spec_clear_message(topic).retain,
        spec_clear_message(topic).payload.len() == 0,
        spec_clear_message(topic).topic == topic,
{
}

/// Cache-hit skip: when the cache already holds the file, the request's
/// whole answer is the symlink and the retained init command, produced in
/// that same step — no download is dispatched.
pub proof fn lemma_cache_hit_skips_download(
    cv: ConfigView,
    target: EntityView,
    req: (Seq<char>, Seq<char>, Seq<char>),
    cmd_id: Seq<char>,
)
    ensures
        forall|k: int|
            0 <= k < spec_update_request_effects(cv, target, req, true, cmd_id).len()
                ==> !(#[trigger] spec_update_request_effects(cv, target, req, true, cmd_id)[k]
                is Download),
        spec_update_request_effects(cv, target, req, true, cmd_id)[0] is CreateSymlink,
        spec_update_request_effects(cv, target, req, true, cmd_id)[1] matches EffectView::Publish(
            m,
        ) && m.retain,
{
}

/// Symlink lifecycle: the symlink created when a config update is accepted
/// and the path removed on its terminal transition are the same name,
/// derived from the entity, the config type and the command id alone; it is
/// the command's file-transfer path.
pub proof fn lemma_symlink_lifecycle(
    cv: ConfigView,
    target: EntityView,
    req: (Seq<char>, Seq<char>, Seq<char>),
    cmd_id: Seq<char>,
    topic: Seq<char>,
)
    ensures
        spec_update_request_effects(cv, target, req, true, cmd_id)[0] matches
            EffectView::CreateSymlink { link, target: t } && link == spec_file_transfer_path(
            cv.data_dir,
            target.external_id,
            OperationType::ConfigUpdate,
            req.2,
            cmd_id,
        ),
        spec_update_terminal_effects(cv, target, req.2, cmd_id, topic, None)[2]
            == (EffectView::RemoveSymlink {
            path: spec_file_transfer_path(
                cv.data_dir,
                target.external_id,
                OperationType::ConfigUpdate,
                req.2,
                cmd_id,
            ),
        }),
{
}

/// Supported-types sort: the list a `119` frame carries — the metadata's
/// types sorted by [`lex_le`] — is in ascending lexicographic order and is a
/// permutation of the declared types.
pub proof fn lemma_types_frame_sorted(types: Seq<Seq<char>>)
    ensures
        forall|i: int, j: int|
            0 <= i < j < types.sort_by(lex_leq_fn()).len() ==> lex_le(
                #[trigger] types.sort_by(lex_leq_fn())[i],
                #[trigger] types.sort_by(lex_leq_fn())[j],
            ),
        types.sort_by(lex_leq_fn()).to_multiset() == types.to_multiset(),
{
    crate::text::lemma_lex_total_ordering();
    types.lemma_sort_by_ensures(lex_leq_fn());
    let sorted = types.sort_by(lex_leq_fn());
    assert forall|i: int, j: int| 0 <= i < j < sorted.len() implies lex_le(
        #[trigger] sorted[i],
        #[trigger] sorted[j],
    ) by {
        assert(vstd::relations::sorted_by(sorted, lex_leq_fn()));
        assert(lex_leq_fn()(sorted[i], sorted[j]));
    }
    assert(types.to_multiset() =~= sorted.to_multiset());
}

} // verus!
