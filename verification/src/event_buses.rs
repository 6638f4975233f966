//! The three publish/subscribe buses that decouple the photo list, the photo
//! items and the tagging detail panel.
//!
//! Each bus keeps an append-only registry of subscriber handles. Publishing
//! (`handle_input`) does not perform delivery itself: it returns the exact
//! list of deliveries — one per currently registered subscriber, in
//! registration order, each carrying the payload by value — and the
//! surrounding shell hands each payload to the addressed component. A bus
//! with no subscribers therefore drops a message silently: the delivery list
//! is empty and nothing else happens.

use vstd::prelude::*;

verus! {

/// Registry of subscriber handles shared by the three buses: handles are
/// handed out from a counter, so a handle is never reused, and the registered
/// handles are kept unique and in registration order.
pub struct Subscribers {
    ids: Vec<u64>,
    next_handle: u64,
}

impl View for Subscribers {
    type V = Seq<u64>;

    closed spec fn view(&self) -> Seq<u64> {
        self.ids@
    }
}

impl Subscribers {
    /// Every registered handle came from the counter and no handle repeats.
    pub closed spec fn wf(&self) -> bool {
        &&& forall|i: int| 0 <= i < self.ids@.len() ==> self.ids@[i] < self.next_handle
        &&& forall|i: int, j: int|
            0 <= i < j < self.ids@.len() ==> self.ids@[i] != self.ids@[j]
    }

    /// How many handles were ever handed out; bounds the registrations still
    /// possible before the counter would run out.
    pub closed spec fn handles_used(&self) -> nat {
        self.next_handle as nat
    }

    pub fn new() -> (r: Self)
        ensures
            r.wf(),
            r@ == Seq::<u64>::empty(),
            r.handles_used() == 0,
    {
        Subscribers { ids: Vec::new(), next_handle: 0 }
    }

    /// Registers a new subscriber: the returned handle is fresh, and the
    /// registry grows by exactly that handle, at the end.
    pub fn register(&mut self) -> (h: u64)
        requires
            old(self).wf(),
            old(self).handles_used() < u64::MAX as nat,
        ensures
            final(self).wf(),
            !old(self)@.contains(h),
            final(self)@ == old(self)@.push(h),
            final(self).handles_used() == old(self).handles_used() + 1,
    {
        let h = self.next_handle;
        assert(!self@.contains(h));
        self.next_handle = self.next_handle + 1;
        self.ids.push(h);
        h
    }

    /// Removes the subscriber with handle `h`, if registered; other
    /// subscribers and their order are untouched.
    pub fn unregister(&mut self, h: u64)
        requires
            old(self).wf(),
        ensures
            final(self).wf(),
            final(self)@ == old(self)@.remove_value(h),
            final(self).handles_used() == old(self).handles_used(),
    {
        let ghost orig = self.ids@;
        let mut i: usize = 0;
        while i < self.ids.len()
            invariant
                self == old(self),
                self.wf(),
                orig == self.ids@,
                i <= self.ids@.len(),
                forall|j: int| 0 <= j < i ==> self.ids@[j] != h,
            decreases self.ids@.len() - i,
        {
            if self.ids[i] == h {
                proof {
                    assert(orig[i as int] == h);
                    assert(orig.contains(h));
                    orig.index_of_first_ensures(h);
                    match orig.index_of_first(h) {
                        Option::Some(k) => {
                            assert(orig[k] == h);
                            assert(k == i as int);
                        },
                        Option::None => {
                            assert(false);
                        },
                    }
                    orig.remove_ensures(i as int);
                }
                self.ids.remove(i);
                proof {
                    let r = orig.remove(i as int);
                    assert forall|a: int| 0 <= a < r.len() implies r[a] < self.next_handle by {
                        if a < i {
                            assert(r[a] == orig[a]);
                        } else {
                            assert(r[a] == orig[a + 1]);
                        }
                    }
                    assert forall|a: int, b: int| 0 <= a < b < r.len() implies r[a] != r[b] by {
                        if a < i {
                            assert(r[a] == orig[a]);
                        } else {
                            assert(r[a] == orig[a + 1]);
                        }
                        if b < i {
                            assert(r[b] == orig[b]);
                        } else {
                            assert(r[b] == orig[b + 1]);
                        }
                    }
                }
                return ;
            }
            i = i + 1;
        }
        proof {
            assert(!orig.contains(h));
            orig.index_of_first_ensures(h);
        }
    }

    pub fn len(&self) -> (n: usize)
        ensures
            n == self@.len(),
    {
        self.ids.len()
    }

    pub fn id_at(&self, i: usize) -> (h: u64)
        requires
            i < self@.len(),
        ensures
            h == self@[i as int],
    {
        self.ids[i]
    }
}

/// Selection bus, item to detail: "this photo was selected for tagging".
pub enum ListToDetailEvents {
    ToTag(String),
}

/// The payload a selection publish delivers: the bare filename.
pub open spec fn selection_payload(msg: ListToDetailEvents) -> String {
    match msg {
        ListToDetailEvents::ToTag(filename) => filename,
    }
}

pub struct ListToDetailEventBus {
    subscribers: Subscribers,
}

impl ListToDetailEventBus {
    /// Registered subscriber handles, in registration order.
    pub closed spec fn subs(&self) -> Seq<u64> {
        self.subscribers@
    }

    pub closed spec fn wf(&self) -> bool {
        self.subscribers.wf()
    }

    pub closed spec fn handles_used(&self) -> nat {
        self.subscribers.handles_used()
    }

    pub fn create() -> (r: Self)
        ensures
            r.wf(),
            r.subs() == Seq::<u64>::empty(),
            r.handles_used() == 0,
    {
        ListToDetailEventBus { subscribers: Subscribers::new() }
    }

    pub fn register(&mut self) -> (h: u64)
        requires
            old(self).wf(),
            old(self).handles_used() < u64::MAX as nat,
        ensures
            final(self).wf(),
            !old(self).subs().contains(h),
            final(self).subs() == old(self).subs().push(h),
            final(self).handles_used() == old(self).handles_used() + 1,
    {
        self.subscribers.register()
    }

    pub fn unregister(&mut self, h: u64)
        requires
            old(self).wf(),
        ensures
            final(self).wf(),
            final(self).subs() == old(self).subs().remove_value(h),
            final(self).handles_used() == old(self).handles_used(),
    {
        self.subscribers.unregister(h)
    }

    /// Broadcasts a selection: exactly one delivery per registered
    /// subscriber, in registration order, each carrying the selected
    /// filename unchanged. With no subscribers the message is dropped.
    pub fn handle_input(&self, msg: ListToDetailEvents) -> (deliveries: Vec<(u64, String)>)
        ensures
            deliveries@.len() == self.subs().len(),
            forall|i: int|
                0 <= i < deliveries@.len() ==> deliveries@[i].0 == self.subs()[i]
                    && deliveries@[i].1 == selection_payload(msg),
    {
        match msg {
            ListToDetailEvents::ToTag(filename) => {
                let mut deliveries: Vec<(u64, String)> = Vec::new();
                let n = self.subscribers.len();
                let mut i: usize = 0;
                while i < n
                    invariant
                        n == self.subs().len(),
                        i <= n,
                        deliveries@.len() == i,
                        forall|j: int| 0 <= j < i ==> (#[trigger] deliveries@[j]).0 == self.subs()[j],
                        forall|j: int| 0 <= j < i ==> (#[trigger] deliveries@[j]).1 == filename,
                    decreases n - i,
                {
                    let to = self.subscribers.id_at(i);
                    let payload = filename.clone();
                    deliveries.push((to, payload));
                    i = i + 1;
                }
                deliveries
            },
        }
    }
}

/// Resolution bus, detail to items: "tagging finished with this result",
/// `Some(tag)` on save, `None` on cancel.
pub enum DetailToListEvents {
    Done(Option<String>),
}

/// The payload a resolution publish delivers: the chosen tag, if any.
pub open spec fn resolution_payload(msg: DetailToListEvents) -> Option<String> {
    match msg {
        DetailToListEvents::Done(done) => done,
    }
}

pub struct DetailToListEventBus {
    subscribers: Subscribers,
}

impl DetailToListEventBus {
    /// Registered subscriber handles, in registration order.
    pub closed spec fn subs(&self) -> Seq<u64> {
        self.subscribers@
    }

    pub closed spec fn wf(&self) -> bool {
        self.subscribers.wf()
    }

    pub closed spec fn handles_used(&self) -> nat {
        self.subscribers.handles_used()
    }

    pub fn create() -> (r: Self)
        ensures
            r.wf(),
            r.subs() == Seq::<u64>::empty(),
            r.handles_used() == 0,
    {
        DetailToListEventBus { subscribers: Subscribers::new() }
    }

    pub fn register(&mut self) -> (h: u64)
        requires
            old(self).wf(),
            old(self).handles_used() < u64::MAX as nat,
        ensures
            final(self).wf(),
            !old(self).subs().contains(h),
            final(self).subs() == old(self).subs().push(h),
            final(self).handles_used() == old(self).handles_used() + 1,
    {
        self.subscribers.register()
    }

    pub fn unregister(&mut self, h: u64)
        requires
            old(self).wf(),
        ensures
            final(self).wf(),
            final(self).subs() == old(self).subs().remove_value(h),
            final(self).handles_used() == old(self).handles_used(),
    {
        self.subscribers.unregister(h)
    }

    /// Broadcasts a resolution: exactly one delivery per registered
    /// subscriber, in registration order, each carrying the outcome
    /// unchanged — every mounted item sees every resolution.
    pub fn handle_input(&self, msg: DetailToListEvents) -> (deliveries: Vec<(u64, Option<String>)>)
        ensures
            deliveries@.len() == self.subs().len(),
            forall|i: int|
                0 <= i < deliveries@.len() ==> deliveries@[i].0 == self.subs()[i]
                    && deliveries@[i].1 == resolution_payload(msg),
    {
        match msg {
            DetailToListEvents::Done(done) => {
                let mut deliveries: Vec<(u64, Option<String>)> = Vec::new();
                let n = self.subscribers.len();
                let mut i: usize = 0;
                while i < n
                    invariant
                        n == self.subs().len(),
                        i <= n,
                        deliveries@.len() == i,
                        forall|j: int| 0 <= j < i ==> (#[trigger] deliveries@[j]).0 == self.subs()[j],
                        forall|j: int| 0 <= j < i ==> (#[trigger] deliveries@[j]).1 == done,
                    decreases n - i,
                {
                    let payload: Option<String> = match &done {
                        Option::Some(tag) => Option::Some(tag.clone()),
                        Option::None => Option::None,
                    };
                    let to = self.subscribers.id_at(i);
                    deliveries.push((to, payload));
                    i = i + 1;
                }
                deliveries
            },
        }
    }
}

/// Advance bus, item to list: a fire-and-forget "scroll the viewport"
/// signal with no payload.
pub enum ItemToListEvents {
    Next,
}

pub struct ItemToListEventBus {
    subscribers: Subscribers,
}

impl ItemToListEventBus {
    /// Registered subscriber handles, in registration order.
    pub closed spec fn subs(&self) -> Seq<u64> {
        self.subscribers@
    }

    pub closed spec fn wf(&self) -> bool {
        self.subscribers.wf()
    }

    pub closed spec fn handles_used(&self) -> nat {
        self.subscribers.handles_used()
    }

    pub fn create() -> (r: Self)
        ensures
            r.wf(),
            r.subs() == Seq::<u64>::empty(),
            r.handles_used() == 0,
    {
        ItemToListEventBus { subscribers: Subscribers::new() }
    }

    pub fn register(&mut self) -> (h: u64)
        requires
            old(self).wf(),
            old(self).handles_used() < u64::MAX as nat,
        ensures
            final(self).wf(),
            !old(self).subs().contains(h),
            final(self).subs() == old(self).subs().push(h),
            final(self).handles_used() == old(self).handles_used() + 1,
    {
        self.subscribers.register()
    }

    pub fn unregister(&mut self, h: u64)
        requires
            old(self).wf(),
        ensures
            final(self).wf(),
            final(self).subs() == old(self).subs().remove_value(h),
            final(self).handles_used() == old(self).handles_used(),
    {
        self.subscribers.unregister(h)
    }

    /// Broadcasts an advance signal: the returned handles are exactly the
    /// registered subscribers, in registration order; each is to be told to
    /// scroll once.
    pub fn handle_input(&self, msg: ItemToListEvents) -> (deliveries: Vec<u64>)
        ensures
            deliveries@ == self.subs(),
    {
        match msg {
            ItemToListEvents::Next => {
                let mut deliveries: Vec<u64> = Vec::new();
                let n = self.subscribers.len();
                let mut i: usize = 0;
                while i < n
                    invariant
                        n == self.subs().len(),
                        i <= n,
                        deliveries@ == self.subs().take(i as int),
                    decreases n - i,
                {
                    deliveries.push(self.subscribers.id_at(i));
                    i = i + 1;
                }
                proof {
                    assert(deliveries@ =~= self.subs());
                }
                deliveries
            },
        }
    }
}

} // verus!
