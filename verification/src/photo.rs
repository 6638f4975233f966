//! One photo item of the list: owns that photo's save lifecycle.
//!
//! The item publishes its filename on the selection bus when clicked,
//! receives every resolution broadcast (selections are not paired with
//! resolutions — every mounted item reacts to every outcome, a breadth the
//! rest of the page relies on), starts a persistence request when a tag was
//! chosen, and advances the list optimistically, before that request
//! resolves. Starting a new request supersedes any outstanding one: requests
//! carry a generation number and a completion for any generation but the
//! current one is ignored.

use vstd::prelude::*;
use vstd::string::StringExecFns;

verus! {

/// Save lifecycle of one photo item. Purely a rendering hint: it never gates
/// clicking or any other transition, and once NotYet is left it is never
/// reentered.
#[derive(Clone, Copy, Debug, PartialEq, Eq, Structural)]
pub enum UpdateStatus {
    NotYet,
    Doing,
    Failed,
    Succeeded,
}

impl UpdateStatus {
    /// The visual class this status renders as.
    pub open spec fn class(self) -> Seq<char> {
        match self {
            UpdateStatus::NotYet => "notyet"@,
            UpdateStatus::Doing => "doing"@,
            UpdateStatus::Failed => "failed"@,
            UpdateStatus::Succeeded => "succeeded"@,
        }
    }

    pub fn to_string(&self) -> (r: String)
        ensures
            r@ == self.class(),
    {
        match self {
            UpdateStatus::NotYet => "notyet".to_owned(),
            UpdateStatus::Doing => "doing".to_owned(),
            UpdateStatus::Failed => "failed".to_owned(),
            UpdateStatus::Succeeded => "succeeded".to_owned(),
        }
    }
}

/// What the list hands each item at creation: the photo's filename.
#[derive(Clone)]
pub struct Props {
    pub photo: String,
}

/// A persistence request an item asks the shell to start: POST the
/// assignment of `tag` to `photo`; `gen` identifies the request so that a
/// completion can be matched against the item's current generation.
#[derive(Clone, Debug, PartialEq, Eq)]
pub struct SaveRequest {
    pub photo: String,
    pub tag: String,
    pub gen: u64,
}

/// The outward effects one item step asks for, in order.
#[derive(Clone, Debug, PartialEq, Eq)]
pub enum ItemCmd {
    /// Publish the item's filename on the selection bus.
    PublishSelection(String),
    /// Start the persistence request.
    StartSave(SaveRequest),
    /// Publish an advance signal on the advance bus.
    PublishAdvance,
}

/// Messages one item consumes: its own click, a resolution broadcast, and
/// the completion of a persistence request of generation `gen` (success, or
/// failure with the transport or status error rendered as text).
#[derive(Debug)]
pub enum Msg {
    ToTag,
    Done(Option<String>),
    UpdatedOk(u64),
    UpdatedErr(u64, String),
}

/// One photo item's state.
pub struct Photo {
    /// The filename this item was created for; never changes.
    pub photo: String,
    pub update_status: UpdateStatus,
    /// Generation of the latest persistence request; 0 while none was ever
    /// started. A completion carrying any other generation is stale and
    /// ignored.
    pub save_gen: u64,
}

/// The item state machine, one delivered message at a time: the successor
/// state and the effects the shell must perform, in order.
///
/// A chosen tag moves the item to Doing and starts a save, and the advance
/// signal follows immediately — before, and regardless of how, the save
/// resolves. A skipped tagging only advances. Completions settle the status
/// to Succeeded or Failed only when they answer the current generation.
pub open spec fn photo_step(s: Photo, msg: Msg) -> (Photo, Seq<ItemCmd>) {
    match msg {
        Msg::ToTag => (s, seq![ItemCmd::PublishSelection(s.photo)]),
        Msg::Done(chosen) => match chosen {
            Option::None => (s, seq![ItemCmd::PublishAdvance]),
            Option::Some(tag) => (
                (Photo {
                    photo: s.photo,
                    update_status: UpdateStatus::Doing,
                    save_gen: (s.save_gen + 1) as u64,
                }),
                seq![
                    ItemCmd::StartSave(
                        SaveRequest { photo: s.photo, tag: tag, gen: (s.save_gen + 1) as u64 },
                    ),
                    ItemCmd::PublishAdvance,
                ],
            ),
        },
        Msg::UpdatedOk(gen) => (
            if gen == s.save_gen && gen != 0 {
                Photo { photo: s.photo, update_status: UpdateStatus::Succeeded, save_gen: s.save_gen }
            } else {
                s
            },
            Seq::<ItemCmd>::empty(),
        ),
        Msg::UpdatedErr(gen, e) => (
            if gen == s.save_gen && gen != 0 {
                Photo { photo: s.photo, update_status: UpdateStatus::Failed, save_gen: s.save_gen }
            } else {
                s
            },
            Seq::<ItemCmd>::empty(),
        ),
    }
}

impl Photo {
    /// A fresh item for one filename: idle, clickable, no save ever started.
    pub fn create(props: Props) -> (r: Photo)
        ensures
            r.photo == props.photo,
            r.update_status == UpdateStatus::NotYet,
            r.save_gen == 0,
    {
        Photo { photo: props.photo, update_status: UpdateStatus::NotYet, save_gen: 0 }
    }

    /// The URL of the image this item renders.
    pub fn pic_url(&self) -> (r: String)
        ensures
            r@ == "/pics/"@ + self.photo@,
    {
        let mut r = "/pics/".to_owned();
        r.append(self.photo.as_str());
        r
    }

    /// Consumes one delivered message and returns the effects to perform;
    /// exactly the step of `photo_step`.
    pub fn update(&mut self, msg: Msg) -> (cmds: Vec<ItemCmd>)
        requires
            msg matches Msg::Done(Some(_)) ==> old(self).save_gen < u64::MAX,
        ensures
            *final(self) == photo_step(*old(self), msg).0,
            cmds@ == photo_step(*old(self), msg).1,
    {
        match msg {
            Msg::ToTag => {
                let mut cmds: Vec<ItemCmd> = Vec::new();
                cmds.push(ItemCmd::PublishSelection(self.photo.clone()));
                proof {
                    assert(cmds@ =~= photo_step(*old(self), msg).1);
                }
                cmds
            },
            Msg::Done(chosen) => match chosen {
                Option::None => {
                    let mut cmds: Vec<ItemCmd> = Vec::new();
                    cmds.push(ItemCmd::PublishAdvance);
                    proof {
                        assert(cmds@ =~= photo_step(*old(self), msg).1);
                    }
                    cmds
                },
                Option::Some(tag) => {
                    self.update_status = UpdateStatus::Doing;
                    self.save_gen = self.save_gen + 1;
                    let mut cmds: Vec<ItemCmd> = Vec::new();
                    let req = SaveRequest {
                        photo: self.photo.clone(),
                        tag: tag,
                        gen: self.save_gen,
                    };
                    cmds.push(ItemCmd::StartSave(req));
                    cmds.push(ItemCmd::PublishAdvance);
                    proof {
                        assert(cmds@ =~= photo_step(*old(self), msg).1);
                    }
                    cmds
                },
            },
            Msg::UpdatedOk(gen) => {
                if gen == self.save_gen && gen != 0 {
                    self.update_status = UpdateStatus::Succeeded;
                }
                let cmds: Vec<ItemCmd> = Vec::new();
                proof {
                    assert(cmds@ =~= photo_step(*old(self), msg).1);
                }
                cmds
            },
            Msg::UpdatedErr(gen, _e) => {
                if gen == self.save_gen && gen != 0 {
                    self.update_status = UpdateStatus::Failed;
                }
                let cmds: Vec<ItemCmd> = Vec::new();
                proof {
                    assert(cmds@ =~= photo_step(*old(self), msg).1);
                }
                cmds
            },
        }
    }
}

/// Law: a "no tag chosen" resolution reaching every mounted item makes each
/// of them publish exactly one advance signal and changes none of them —
/// broadcast breadth, not just the item that was actually selected.
pub proof fn lemma_skip_resolution_broadcast(items: Seq<Photo>)
    ensures
        forall|i: int|
            0 <= i < items.len() ==> #[trigger] photo_step(items[i], Msg::Done(Option::None)) == (
            items[i],
            seq![ItemCmd::PublishAdvance],
            ),
{
}

/// Law: a "tag chosen" resolution reaching every mounted item moves each of
/// them to Doing and makes each start exactly one save, carrying that item's
/// own filename and the chosen tag, with the advance signal published right
/// after the save starts — not after it resolves.
pub proof fn lemma_chosen_tag_broadcast(items: Seq<Photo>, tag: String)
    ensures
        forall|i: int|
            0 <= i < items.len() && items[i].save_gen < u64::MAX ==> {
                let next = (#[trigger] photo_step(items[i], Msg::Done(Option::Some(tag)))).0;
                let cmds = photo_step(items[i], Msg::Done(Option::Some(tag))).1;
                &&& next.photo == items[i].photo
                &&& next.update_status == UpdateStatus::Doing
                &&& cmds.len() == 2
                &&& cmds[0] == ItemCmd::StartSave(
                    SaveRequest {
                        photo: items[i].photo,
                        tag: tag,
                        gen: (items[i].save_gen + 1) as u64,
                    },
                )
                &&& cmds[1] == ItemCmd::PublishAdvance
            },
{
}

/// Law: once NotYet is left it is never reentered — no message moves an
/// item's status back to NotYet. Retrying a failed save is an ordinary new
/// click cycle, not a reset.
pub proof fn lemma_notyet_never_reentered(item: Photo, msg: Msg)
    requires
        item.update_status != UpdateStatus::NotYet,
    ensures
        photo_step(item, msg).0.update_status != UpdateStatus::NotYet,
{
}

/// Law: a save completion settles only the one item it answers. Delivered
/// to item `k` of a mounted list, it publishes nothing, leaves every other
/// item untouched, and moves item `k` to Succeeded on success and to Failed
/// on failure whenever it answers item `k`'s current save.
pub proof fn lemma_save_completion_isolated(items: Seq<Photo>, k: int, msg: Msg)
    requires
        0 <= k < items.len(),
        msg matches Msg::UpdatedOk(_) || msg matches Msg::UpdatedErr(_, _),
    ensures
        photo_step(items[k], msg).1 == Seq::<ItemCmd>::empty(),
        forall|j: int|
            0 <= j < items.len() && j != k ==> items.update(
                k,
                photo_step(items[k], msg).0,
            )[j] == items[j],
        msg matches Msg::UpdatedOk(g) && g == items[k].save_gen && g != 0 ==> photo_step(
            items[k],
            msg,
        ).0.update_status == UpdateStatus::Succeeded,
        msg matches Msg::UpdatedErr(g, _) && g == items[k].save_gen && g != 0 ==> photo_step(
            items[k],
            msg,
        ).0.update_status == UpdateStatus::Failed,
{
}

} // verus!
