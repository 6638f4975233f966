//! The photo list: fetches the unnamed-photo filenames, creates one photo
//! item per filename, and scrolls its viewport one fixed step forward for
//! every advance signal — without checking which item advanced or whether
//! that item's save succeeded.

use crate::SCROLL_STEP;
use crate::photo::Photo;
use crate::photo::Props;
use crate::photo::UpdateStatus;
use vstd::prelude::*;

verus! {

/// Messages the list consumes: the fetch kick-off, its two outcomes (the
/// failure rendered as text), and an advance delivery.
#[derive(Debug)]
pub enum Msg {
    GetPhotoList,
    GetPhotoListOk(Vec<String>),
    GetPhotoListErr(String),
    Next,
}

/// The one outward effect a list step can ask for: issue the GET for the
/// unnamed-photo list.
#[derive(Clone, Copy, Debug, PartialEq, Eq, Structural)]
pub enum ListCmd {
    FetchList,
}

/// What the list renders: a loading notice while the fetch is outstanding,
/// the failure instead of the list if it failed (no partial list is ever
/// shown), else one row per item.
pub enum ListView<'a> {
    Loading,
    FetchFailed(&'a String),
    Rows(&'a Vec<Photo>),
}

/// The list's state. A fetch failure is terminal until the whole list is
/// recreated: nothing retries.
pub struct PhotoList {
    /// The fetched filenames, in backend order; empty until a fetch
    /// succeeds.
    pub photos: Vec<String>,
    /// One item per fetched filename, same order.
    pub items: Vec<Photo>,
    pub getting_photo_list: bool,
    pub get_photo_list_error: Option<String>,
    /// How far the viewport has been scrolled forward, in pixels, clamped at
    /// the top of the counter's range.
    pub scroll_offset: u64,
}

/// The items a fetched snapshot gives rise to: one fresh item per filename,
/// in list order.
pub open spec fn fresh_items(photos: Seq<String>) -> Seq<Photo> {
    photos.map(
        |i: int, f: String|
            Photo { photo: f, update_status: UpdateStatus::NotYet, save_gen: 0 },
    )
}

/// One advance signal's effect on the viewport offset.
pub open spec fn scroll_advanced(offset: u64) -> u64 {
    if offset + SCROLL_STEP <= u64::MAX {
        (offset + SCROLL_STEP) as u64
    } else {
        u64::MAX
    }
}

impl PhotoList {
    /// An empty, idle list. The page delivers `Msg::GetPhotoList` right
    /// after mounting it.
    pub fn create() -> (r: PhotoList)
        ensures
            r.photos@ == Seq::<String>::empty(),
            r.items@ == Seq::<Photo>::empty(),
            !r.getting_photo_list,
            r.get_photo_list_error is None,
            r.scroll_offset == 0,
    {
        PhotoList {
            photos: Vec::new(),
            items: Vec::new(),
            getting_photo_list: false,
            get_photo_list_error: None,
            scroll_offset: 0,
        }
    }

    /// Consumes one delivered message and returns the request to issue, if
    /// any. A successful fetch replaces the items wholesale: exactly one
    /// fresh item per fetched filename, all starting NotYet — a later save
    /// never removes an item, advancing only scrolls.
    pub fn update(&mut self, msg: Msg) -> (cmd: Option<ListCmd>)
        ensures
            msg matches Msg::GetPhotoList ==> {
                &&& *final(self) == (PhotoList { getting_photo_list: true, ..*old(self) })
                &&& cmd == Some(ListCmd::FetchList)
            },
            msg matches Msg::GetPhotoListOk(strs) ==> {
                &&& final(self).photos == strs
                &&& final(self).items@ == fresh_items(strs@)
                &&& !final(self).getting_photo_list
                &&& final(self).get_photo_list_error == old(self).get_photo_list_error
                &&& final(self).scroll_offset == old(self).scroll_offset
                &&& cmd is None
            },
            msg matches Msg::GetPhotoListErr(e) ==> {
                &&& *final(self) == (PhotoList {
                    getting_photo_list: false,
                    get_photo_list_error: Some(e),
                    ..*old(self)
                })
                &&& cmd is None
            },
            msg matches Msg::Next ==> {
                &&& *final(self) == (PhotoList {
                    scroll_offset: scroll_advanced(old(self).scroll_offset),
                    ..*old(self)
                })
                &&& cmd is None
            },
    {
        match msg {
            Msg::GetPhotoList => {
                self.getting_photo_list = true;
                Some(ListCmd::FetchList)
            },
            Msg::GetPhotoListOk(strs) => {
                self.getting_photo_list = false;
                self.photos = strs;
                let mut items: Vec<Photo> = Vec::new();
                let n = self.photos.len();
                let mut i: usize = 0;
                while i < n
                    invariant
                        n == self.photos@.len(),
                        i <= n,
                        items@.len() == i,
                        forall|j: int|
                            0 <= j < i ==> #[trigger] items@[j] == fresh_items(self.photos@)[j],
                    decreases n - i,
                {
                    let item = Photo::create(Props { photo: self.photos[i].clone() });
                    items.push(item);
                    i = i + 1;
                }
                proof {
                    assert(items@ =~= fresh_items(self.photos@));
                }
                self.items = items;
                None
            },
            Msg::GetPhotoListErr(e) => {
                self.getting_photo_list = false;
                self.get_photo_list_error = Some(e);
                None
            },
            Msg::Next => {
                if self.scroll_offset <= u64::MAX - SCROLL_STEP {
                    self.scroll_offset = self.scroll_offset + SCROLL_STEP;
                } else {
                    self.scroll_offset = u64::MAX;
                }
                None
            },
        }
    }

    /// What the list renders right now.
    pub fn rendered(&self) -> (r: ListView)
        ensures
            self.getting_photo_list ==> r is Loading,
            (!self.getting_photo_list && self.get_photo_list_error is Some) ==> (r matches
            ListView::FetchFailed(f) && *f == self.get_photo_list_error.unwrap()),
            (!self.getting_photo_list && self.get_photo_list_error is None) ==> (r matches
            ListView::Rows(items) && *items == self.items),
    {
        if self.getting_photo_list {
            ListView::Loading
        } else {
            match &self.get_photo_list_error {
                Some(e) => ListView::FetchFailed(e),
                None => ListView::Rows(&self.items),
            }
        }
    }
}

/// Law: one item per filename. The items of a fetched snapshot mirror its
/// filenames index by index, each starting NotYet; and since a snapshot
/// names each photo only once, no two items are for the same photo.
pub proof fn lemma_one_item_per_filename(photos: Seq<String>)
    requires
        forall|i: int, j: int| 0 <= i < j < photos.len() ==> photos[i]@ != photos[j]@,
    ensures
        fresh_items(photos).len() == photos.len(),
        forall|i: int|
            0 <= i < photos.len() ==> (#[trigger] fresh_items(photos)[i]).photo == photos[i]
                && fresh_items(photos)[i].update_status == UpdateStatus::NotYet
                && fresh_items(photos)[i].save_gen == 0,
        forall|i: int, j: int|
            0 <= i < j < photos.len() ==> fresh_items(photos)[i].photo@ != fresh_items(
                photos,
            )[j].photo@,
{
}

} // verus!
