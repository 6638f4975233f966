//! The shared tagging detail panel.
//!
//! A single instance serves the whole page: it subscribes to the selection
//! bus to learn which photo to display, offers the vocabulary as type-ahead
//! options, and publishes the outcome — the pending text on save, nothing on
//! cancel — on the resolution bus.

use crate::vocab::parsed_tags;
use crate::vocab::tags_from_json;
use vstd::prelude::*;

verus! {

/// What the page hands the panel at creation: the vocabulary, JSON-encoded.
#[derive(Clone)]
pub struct Props {
    pub tags_json: String,
}

/// Messages the panel consumes: the two buttons, a selection delivery, and
/// an edit of the input (the input's new text).
#[derive(Debug)]
pub enum Msg {
    Save,
    Cancel,
    ToTag(String),
    UITagValueState(String),
}

/// The one outward effect a panel step can ask for: publish the outcome on
/// the resolution bus — the chosen tag on save, none on cancel.
#[derive(Clone, Debug, PartialEq, Eq)]
pub enum DetailCmd {
    PublishDone(Option<String>),
}

/// The panel's state. It renders nothing until `photo` is set by the first
/// selection.
pub struct Tagging {
    /// The photo being tagged; none until a selection arrives.
    pub photo: Option<String>,
    /// The vocabulary offered as type-ahead options; fixed at creation.
    pub tags: Vec<String>,
    /// The text currently in the input.
    pub value: String,
}

/// The panel state machine, one delivered message at a time.
///
/// Save publishes the pending text exactly as typed and clears nothing: the
/// displayed photo and the text are only ever overwritten by the next
/// selection. Whether the text ought to reset between photos is an open
/// design question; the carry-over is deliberate and must not be "fixed"
/// silently.
pub open spec fn tagging_step(s: Tagging, msg: Msg) -> (Tagging, Option<DetailCmd>) {
    match msg {
        Msg::Save => (s, Some(DetailCmd::PublishDone(Some(s.value)))),
        Msg::Cancel => (s, Some(DetailCmd::PublishDone(None))),
        Msg::ToTag(filename) => (
            (Tagging { photo: Some(filename), tags: s.tags, value: s.value }),
            None,
        ),
        Msg::UITagValueState(v) => ((Tagging { photo: s.photo, tags: s.tags, value: v }), None),
    }
}

impl Tagging {
    /// Builds the panel from its props: no photo shown, empty input, and the
    /// vocabulary decoded from the JSON text. Returns nothing where the text
    /// is not a JSON array of strings.
    pub fn create(props: Props) -> (r: Option<Tagging>)
        ensures
            r is Some <==> parsed_tags(props.tags_json@) is Some,
            r matches Some(t) ==> {
                &&& Some(t.tags.deep_view()) == parsed_tags(props.tags_json@)
                &&& t.photo is None
                &&& t.value@ == Seq::<char>::empty()
            },
    {
        match tags_from_json(props.tags_json.as_str()) {
            Some(tags) => Some(Tagging { photo: None, tags, value: String::new() }),
            None => None,
        }
    }

    /// Consumes one delivered message and returns the publish to perform, if
    /// any; exactly the step of `tagging_step`.
    pub fn update(&mut self, msg: Msg) -> (cmd: Option<DetailCmd>)
        ensures
            *final(self) == tagging_step(*old(self), msg).0,
            cmd == tagging_step(*old(self), msg).1,
    {
        match msg {
            Msg::Save => Some(DetailCmd::PublishDone(Some(self.value.clone()))),
            Msg::Cancel => Some(DetailCmd::PublishDone(None)),
            Msg::ToTag(filename) => {
                self.photo = Some(filename);
                None
            },
            Msg::UITagValueState(v) => {
                self.value = v;
                None
            },
        }
    }

    /// The photo whose image, input and buttons the panel renders; while
    /// this is none — until the first selection arrives — the panel renders
    /// nothing at all.
    pub fn rendered_photo(&self) -> (r: Option<&String>)
        ensures
            r is Some <==> self.photo is Some,
            r matches Some(p) ==> *p == self.photo.unwrap(),
    {
        match &self.photo {
            Some(p) => Some(p),
            None => None,
        }
    }
}

} // verus!
