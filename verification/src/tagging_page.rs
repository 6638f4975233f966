//! The tagging page: hosts the photo list and the detail panel. It fetches
//! the tag vocabulary once on mount and bakes it, JSON-encoded, into the
//! detail panel's props.

use crate::vocab::parsed_tags;
use crate::vocab::tags_to_json;
use vstd::prelude::*;

verus! {

/// Messages the page consumes: a selection notification (kept as a hook, the
/// page does nothing with it), the vocabulary fetch kick-off and its two
/// outcomes (the failure rendered as text).
#[derive(Debug)]
pub enum Msg {
    ToTag(String),
    GetTags,
    GetTagsOk(Vec<String>),
    GetTagsErr(String),
}

/// The one outward effect a page step can ask for: issue the GET for the
/// vocabulary.
#[derive(Clone, Copy, Debug, PartialEq, Eq, Structural)]
pub enum PageCmd {
    FetchTags,
}

/// The tagging page's state.
pub struct TaggingPage {
    pub getting_tags: bool,
    pub get_tags_error: Option<String>,
    pub tags: Vec<String>,
}

impl TaggingPage {
    /// An idle page with an empty vocabulary. The shell delivers
    /// `Msg::GetTags` right after mounting it.
    pub fn create() -> (r: TaggingPage)
        ensures
            !r.getting_tags,
            r.get_tags_error is None,
            r.tags@ == Seq::<String>::empty(),
    {
        TaggingPage { getting_tags: false, get_tags_error: None, tags: Vec::new() }
    }

    /// Consumes one delivered message and returns the request to issue, if
    /// any. A selection notification changes nothing.
    pub fn update(&mut self, msg: Msg) -> (cmd: Option<PageCmd>)
        ensures
            msg matches Msg::ToTag(_) ==> *final(self) == *old(self) && cmd is None,
            msg matches Msg::GetTags ==> {
                &&& *final(self) == (TaggingPage { getting_tags: true, ..*old(self) })
                &&& cmd == Some(PageCmd::FetchTags)
            },
            msg matches Msg::GetTagsOk(tags) ==> {
                &&& *final(self) == (TaggingPage { getting_tags: false, tags: tags, ..*old(self) })
                &&& cmd is None
            },
            msg matches Msg::GetTagsErr(e) ==> {
                &&& *final(self) == (TaggingPage {
                    getting_tags: false,
                    get_tags_error: Some(e),
                    ..*old(self)
                })
                &&& cmd is None
            },
    {
        match msg {
            Msg::ToTag(_filename) => None,
            Msg::GetTags => {
                self.getting_tags = true;
                Some(PageCmd::FetchTags)
            },
            Msg::GetTagsOk(tags) => {
                self.getting_tags = false;
                self.tags = tags;
                None
            },
            Msg::GetTagsErr(e) => {
                self.getting_tags = false;
                self.get_tags_error = Some(e);
                None
            },
        }
    }

    /// The vocabulary as the detail panel's props want it: JSON text that
    /// parses back to exactly the page's tags.
    pub fn tags_json(&self) -> (r: String)
        ensures
            parsed_tags(r@) == Some(self.tags.deep_view()),
    {
        tags_to_json(&self.tags)
    }
}

} // verus!
