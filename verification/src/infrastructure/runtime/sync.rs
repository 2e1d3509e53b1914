//! The `/sync` push, as the transcript tells it.
use vstd::prelude::*;
use crate::clock::Instant;
use crate::domain::model::Model;
use crate::domain::transcript::NoticeLevel;
use crate::infrastructure::runtime::turn::stamped;
use crate::text::cat2;

verus! {

/// Announce the push before it blocks.
pub fn sync_started(model: &mut Model, now: Instant)
    requires
        old(model).wf(),
    ensures
        stamped(*old(model), now).posted(*final(model), NoticeLevel::Info, "sincronizando (push)…"@),
        final(model).wf(),
{
    model.notify_info("sincronizando (push)…".to_owned());
    model.timeline.render_at = Some(now);
}

/// Announce what came of the push.
pub fn sync_finished(model: &mut Model, result: Result<String, String>)
    requires
        old(model).wf(),
    ensures
        match result {
            Ok(summary) => old(model).posted(*final(model), NoticeLevel::Info, "sync: "@ + summary@),
            Err(e) => old(model).posted(*final(model), NoticeLevel::Error, "sync falhou: "@ + e@),
        },
        final(model).wf(),
{
    match result {
        Ok(summary) => {
            model.notify_info(cat2("sync: ", summary.as_str()));
        },
        Err(failure) => {
            model.notify_error(cat2("sync falhou: ", failure.as_str()));
        },
    }
}

} // verus!
