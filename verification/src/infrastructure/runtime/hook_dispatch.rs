//! Hooks at session and turn boundaries: which may run, and how a run is announced. A failing or slow hook never
//! blocks or fails what it fired from.
use vstd::prelude::*;
use crate::domain::model::Model;
use crate::domain::transcript::NoticeLevel;
use crate::text::{cat2, cat5};

verus! {

/// Where a hook comes from.
#[derive(Debug, Clone, Copy, PartialEq, Eq, Structural)]
pub enum Layer {
    Global,
    Bundled,
    Project,
}

/// Whether a hook may run. Global and bundled hooks always do; a project hook only where the trust store, asked on
/// every firing, approves its exact content. A store that cannot be read approves nothing.
pub fn hook_approved(layer: Layer, trusted: Result<bool, String>) -> (r: bool)
    ensures
        r == (layer != Layer::Project || (trusted matches Ok(yes) && yes)),
{
    match layer {
        Layer::Global => true,
        Layer::Bundled => true,
        Layer::Project => match trusted {
            Ok(yes) => yes,
            Err(_) => false,
        },
    }
}

/// The notice of a hook's run.
pub open spec fn hook_notice(ok: bool, id: Seq<char>, summary: Seq<char>) -> Seq<char> {
    "hook "@ + (if ok {
        "✓"@
    } else {
        "✗"@
    }) + " "@ + id + ": "@ + summary
}

/// Announce a hook's run, failed or not.
pub fn announce_hook(model: &mut Model, ok: bool, id: &str, summary: &str)
    requires
        old(model).wf(),
    ensures
        old(model).posted(*final(model), NoticeLevel::Info, hook_notice(ok, id@, summary@)),
        final(model).wf(),
{
    let marker: &str = if ok {
        "✓"
    } else {
        "✗"
    };
    let head: String = cat5("hook ", marker, " ", id, ": ");
    model.notify_info(cat2(head.as_str(), summary));
}

} // verus!
