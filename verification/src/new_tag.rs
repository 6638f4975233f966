//! The new-tag registration page: fetches the vocabulary on mount, submits
//! one or more comma-separated new tag names in a single request, and on
//! success clears the input and refetches. A banner shows the outcome of the
//! last submission until the input is edited again.

use crate::urls::digit_char;
use crate::urls::fragment_encoded;
use crate::urls::new_names_url;
use vstd::prelude::*;
use vstd::string::StringExecFns;

verus! {

/// Decimal representation of `n`, most significant digit first.
pub open spec fn dec_rep(n: int) -> Seq<char>
    decreases n,
{
    if n < 10 {
        seq![digit_char(n)]
    } else {
        dec_rep(n / 10).push(digit_char(n % 10))
    }
}

fn dec_digit_str(d: u16) -> (r: &'static str)
    requires
        d < 10,
    ensures
        r@ == seq![digit_char(d as int)],
{
    proof {
        reveal_strlit("0");
        reveal_strlit("1");
        reveal_strlit("2");
        reveal_strlit("3");
        reveal_strlit("4");
        reveal_strlit("5");
        reveal_strlit("6");
        reveal_strlit("7");
        reveal_strlit("8");
        reveal_strlit("9");
    }
    let r = match d {
        0 => "0",
        1 => "1",
        2 => "2",
        3 => "3",
        4 => "4",
        5 => "5",
        6 => "6",
        7 => "7",
        8 => "8",
        _ => "9",
    };
    proof {
        assert(r@ =~= seq![digit_char(d as int)]);
    }
    r
}

/// Renders `n` in decimal, no sign, no leading zeros.
pub fn u16_to_dec_string(n: u16) -> (r: String)
    ensures
        r@ == dec_rep(n as int),
    decreases n,
{
    if n < 10 {
        dec_digit_str(n).to_owned()
    } else {
        let mut r = u16_to_dec_string(n / 10);
        r.append(dec_digit_str(n % 10));
        proof {
            assert(r@ =~= dec_rep(n as int));
        }
        r
    }
}

/// The ways a request can fail: the transport never started (its error
/// rendered as text), the backend answered with a non-success status code,
/// or the response body did not decode (its error rendered as text).
#[derive(Clone, Debug, PartialEq, Eq)]
pub enum FetchErrors {
    FetchError(String),
    RequestError(u16),
    ContentError(String),
}

impl FetchErrors {
    /// The displayable message for this error.
    pub open spec fn message(self) -> Seq<char> {
        match self {
            FetchErrors::FetchError(e) => "Error starting fetch: "@ + e@,
            FetchErrors::RequestError(status) => "Server returns error code: "@ + dec_rep(
                status as int,
            ),
            FetchErrors::ContentError(e) => "Server returns unrecognized data: "@ + e@,
        }
    }

    pub fn to_string(&self) -> (r: String)
        ensures
            r@ == self.message(),
    {
        match self {
            FetchErrors::FetchError(e) => {
                let mut r = "Error starting fetch: ".to_owned();
                r.append(e.as_str());
                r
            },
            FetchErrors::RequestError(status) => {
                let mut r = "Server returns error code: ".to_owned();
                let digits = u16_to_dec_string(*status);
                r.append(digits.as_str());
                r
            },
            FetchErrors::ContentError(e) => {
                let mut r = "Server returns unrecognized data: ".to_owned();
                r.append(e.as_str());
                r
            },
        }
    }
}

/// What the outcome banner shows.
pub enum SaveBanner<'a> {
    Hidden,
    Saving,
    SaveFailed(&'a FetchErrors),
    Saved,
}

/// What the vocabulary area below the form shows.
pub enum VocabView<'a> {
    Loading,
    FetchFailed(&'a FetchErrors),
    Tags(&'a Vec<String>),
}

/// Messages the page consumes: the submit button, the submission's two
/// outcomes, the vocabulary fetch kick-off and its two outcomes, and an edit
/// of the input (the input's new text).
#[derive(Debug)]
pub enum Msg {
    SaveTag,
    SaveTagOk,
    SaveTagErr(FetchErrors),
    GetTags,
    GetTagsOk(Vec<String>),
    GetTagsErr(FetchErrors),
    UINewTagValueState(String),
}

/// The outward effects a page step can ask for.
#[derive(Clone, Debug, PartialEq, Eq)]
pub enum NewTagCmd {
    /// GET the vocabulary.
    FetchTags,
    /// POST the submission to this URL, which embeds the percent-encoded
    /// input.
    SaveTags(String),
}

/// The new-tag page's state.
pub struct NewTagPage {
    /// The known vocabulary, displayed below the form.
    pub tags: Vec<String>,
    /// The input's text: one or more comma-separated names to register.
    pub new_tag: String,
    pub getting_tags: bool,
    pub get_tags_error: Option<FetchErrors>,
    pub saving_tag: bool,
    /// The last submission failure; never cleared by a later success.
    pub save_tag_error: Option<FetchErrors>,
    /// Whether the outcome banner is shown; cleared by the next edit.
    pub show_save_msg: bool,
}

impl NewTagPage {
    /// An idle page with an empty vocabulary and an empty input. The shell
    /// delivers `Msg::GetTags` right after mounting it.
    pub fn create() -> (r: NewTagPage)
        ensures
            r.tags@ == Seq::<String>::empty(),
            r.new_tag@ == Seq::<char>::empty(),
            !r.getting_tags,
            r.get_tags_error is None,
            !r.saving_tag,
            r.save_tag_error is None,
            !r.show_save_msg,
    {
        NewTagPage {
            tags: Vec::new(),
            new_tag: String::new(),
            getting_tags: false,
            get_tags_error: None,
            saving_tag: false,
            save_tag_error: None,
            show_save_msg: false,
        }
    }

    /// Consumes one delivered message and returns the request to issue, if
    /// any.
    ///
    /// Submitting posts the input percent-encoded into the query string and
    /// raises the banner. A successful submission clears the input and
    /// immediately starts the vocabulary refetch; a failed one records the
    /// error. Editing the input lowers the banner.
    pub fn update(&mut self, msg: Msg) -> (cmd: Option<NewTagCmd>)
        ensures
            msg matches Msg::SaveTag ==> {
                &&& *final(self) == (NewTagPage {
                    saving_tag: true,
                    show_save_msg: true,
                    ..*old(self)
                })
                &&& cmd matches Some(NewTagCmd::SaveTags(url)) && url@ == "/apis/new_names?names="@
                    + fragment_encoded(old(self).new_tag@)
            },
            msg matches Msg::SaveTagOk ==> {
                &&& *final(self) == (NewTagPage {
                    saving_tag: false,
                    new_tag: final(self).new_tag,
                    getting_tags: true,
                    ..*old(self)
                })
                &&& final(self).new_tag@ == Seq::<char>::empty()
                &&& cmd == Some(NewTagCmd::FetchTags)
            },
            msg matches Msg::SaveTagErr(e) ==> {
                &&& *final(self) == (NewTagPage {
                    saving_tag: false,
                    save_tag_error: Some(e),
                    ..*old(self)
                })
                &&& cmd is None
            },
            msg matches Msg::GetTags ==> {
                &&& *final(self) == (NewTagPage { getting_tags: true, ..*old(self) })
                &&& cmd == Some(NewTagCmd::FetchTags)
            },
            msg matches Msg::GetTagsOk(tags) ==> {
                &&& *final(self) == (NewTagPage { getting_tags: false, tags: tags, ..*old(self) })
                &&& cmd is None
            },
            msg matches Msg::GetTagsErr(e) ==> {
                &&& *final(self) == (NewTagPage {
                    getting_tags: false,
                    get_tags_error: Some(e),
                    ..*old(self)
                })
                &&& cmd is None
            },
            msg matches Msg::UINewTagValueState(v) ==> {
                &&& *final(self) == (NewTagPage {
                    new_tag: v,
                    show_save_msg: false,
                    ..*old(self)
                })
                &&& cmd is None
            },
    {
        match msg {
            Msg::SaveTag => {
                self.saving_tag = true;
                self.show_save_msg = true;
                let url = new_names_url(self.new_tag.as_str());
                Some(NewTagCmd::SaveTags(url))
            },
            Msg::SaveTagOk => {
                self.saving_tag = false;
                self.new_tag = String::new();
                self.getting_tags = true;
                Some(NewTagCmd::FetchTags)
            },
            Msg::SaveTagErr(e) => {
                self.saving_tag = false;
                self.save_tag_error = Some(e);
                None
            },
            Msg::GetTags => {
                self.getting_tags = true;
                Some(NewTagCmd::FetchTags)
            },
            Msg::GetTagsOk(tags) => {
                self.getting_tags = false;
                self.tags = tags;
                None
            },
            Msg::GetTagsErr(e) => {
                self.getting_tags = false;
                self.get_tags_error = Some(e);
                None
            },
            Msg::UINewTagValueState(v) => {
                self.new_tag = v;
                self.show_save_msg = false;
                None
            },
        }
    }

    /// The banner rendered above the form: nothing until a submission was
    /// made, a saving notice while one is outstanding, then the outcome of
    /// the last one — a recorded failure wins over the success notice.
    pub fn save_banner(&self) -> (r: SaveBanner)
        ensures
            !self.show_save_msg ==> r is Hidden,
            self.show_save_msg && self.saving_tag ==> r is Saving,
            (self.show_save_msg && !self.saving_tag && self.save_tag_error is None) ==> r is Saved,
            (self.show_save_msg && !self.saving_tag && self.save_tag_error is Some) ==> (
            r matches SaveBanner::SaveFailed(f) && *f == self.save_tag_error.unwrap()),
    {
        if !self.show_save_msg {
            SaveBanner::Hidden
        } else if self.saving_tag {
            SaveBanner::Saving
        } else {
            match &self.save_tag_error {
                Some(e) => SaveBanner::SaveFailed(e),
                None => SaveBanner::Saved,
            }
        }
    }

    /// The vocabulary area rendered below the form: a loading notice while
    /// the fetch is outstanding, the recorded failure if it failed, else the
    /// fetched tags.
    pub fn vocab_view(&self) -> (r: VocabView)
        ensures
            self.getting_tags ==> r is Loading,
            (!self.getting_tags && self.get_tags_error is Some) ==> (r matches
            VocabView::FetchFailed(f) && *f == self.get_tags_error.unwrap()),
            (!self.getting_tags && self.get_tags_error is None) ==> (r matches VocabView::Tags(
                tags,
            ) && *tags == self.tags),
    {
        if self.getting_tags {
            VocabView::Loading
        } else {
            match &self.get_tags_error {
                Some(e) => VocabView::FetchFailed(e),
                None => VocabView::Tags(&self.tags),
            }
        }
    }
}

} // verus!
