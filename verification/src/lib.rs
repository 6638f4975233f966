//! Coordination engine for a photo-tagging front end.
//!
//! A list view shows unnamed photos; clicking one selects it for tagging in a
//! shared detail panel; saving or cancelling there resolves the tagging cycle
//! and advances the list viewport. The views never reference one another:
//! every cross-component effect travels over one of three publish/subscribe
//! event buses. Each module holds one controller's state machine; a
//! controller consumes a message and returns the commands (network requests,
//! bus publishes) that the surrounding shell must perform.

use vstd::prelude::*;

pub mod event_buses;
pub mod new_tag;
pub mod photo;
pub mod photo_list;
pub mod route;
pub mod tagging;
pub mod tagging_page;
pub mod urls;
pub mod vocab;

use crate::photo::ItemCmd;
use crate::photo::Msg as ItemMsg;
use crate::photo::Photo;
use crate::photo::SaveRequest;
use crate::photo::UpdateStatus;
use crate::photo::photo_step;
use crate::tagging::DetailCmd;
use crate::tagging::Msg as DetailMsg;
use crate::tagging::Tagging;
use crate::tagging::tagging_step;

verus! {

/// Fixed number of pixels the list viewport scrolls per advance signal.
pub const SCROLL_STEP: u64 = 300;

/// Law: a saved tag crosses the page untransformed. The detail panel
/// resolves with exactly its pending text, and an item that receives that
/// resolution starts exactly one save, carrying that text and the item's own
/// filename, then advances.
pub proof fn lemma_pending_text_reaches_the_save(detail: Tagging, item: Photo)
    requires
        item.save_gen < u64::MAX,
    ensures
        tagging_step(detail, DetailMsg::Save).1 == Some(
            DetailCmd::PublishDone(Some(detail.value)),
        ),
        tagging_step(detail, DetailMsg::Save).0 == detail,
        photo_step(item, ItemMsg::Done(Some(detail.value))).1 == seq![
            ItemCmd::StartSave(
                SaveRequest {
                    photo: item.photo,
                    tag: detail.value,
                    gen: (item.save_gen + 1) as u64,
                },
            ),
            ItemCmd::PublishAdvance,
        ],
        photo_step(item, ItemMsg::Done(Some(detail.value))).0.update_status
            == UpdateStatus::Doing,
{
}

/// Law: cancelling saves nothing and still advances. The detail panel
/// resolves with no tag, and an item that receives that resolution starts no
/// request, keeps its status, and publishes exactly one advance signal.
pub proof fn lemma_cancel_saves_nothing(detail: Tagging, item: Photo)
    ensures
        tagging_step(detail, DetailMsg::Cancel).1 == Some(DetailCmd::PublishDone(None)),
        tagging_step(detail, DetailMsg::Cancel).0 == detail,
        photo_step(item, ItemMsg::Done(None)) == (item, seq![ItemCmd::PublishAdvance]),
{
}

} // verus!
