use vstd::prelude::*;

use crate::components::ImageHandle;

verus! {

/// One page of dialogue: who speaks, what they say, and their portrait.
pub struct Dialogue {
    pub text: String,
    pub title: String,
    pub image: ImageHandle,
}

/// The content of a page, as plain values.
pub struct PageView {
    pub title: Seq<char>,
    pub text: Seq<char>,
    pub image: ImageHandle,
}

impl View for Dialogue {
    type V = PageView;

    open spec fn view(&self) -> PageView {
        PageView { title: self.title@, text: self.text@, image: self.image }
    }
}

impl Dialogue {
    /// An empty page with the default portrait.
    pub fn default() -> (r: Dialogue)
        ensures
            r@.title.len() == 0,
            r@.text.len() == 0,
            r@.image == ImageHandle::default_spec(),
    {
        Dialogue { text: String::new(), title: String::new(), image: ImageHandle::default_handle() }
    }
}

/// The pages of a conversation that have not been shown yet.
/// Pages come out last-in-first-out: the page appended most recently is shown next.
pub struct DialogueQueue {
    pub dialogues: Vec<Dialogue>,
}

pub open spec fn pages_view(v: Seq<Dialogue>) -> Seq<PageView> {
    v.map_values(|d: Dialogue| d@)
}

impl View for DialogueQueue {
    type V = Seq<PageView>;

    /// In order of appending; the last element is the next page to show.
    open spec fn view(&self) -> Seq<PageView> {
        pages_view(self.dialogues@)
    }
}

impl DialogueQueue {
    pub fn new() -> (r: DialogueQueue)
        ensures
            r@ == Seq::<PageView>::empty(),
    {
        let r = DialogueQueue { dialogues: Vec::new() };
        assert(r@ =~= Seq::<PageView>::empty());
        r
    }

    /// Appends a page; it becomes the next page to be taken.
    pub fn push(&mut self, page: Dialogue)
        ensures
            final(self)@ == old(self)@.push(page@),
    {
        self.dialogues.push(page);
        assert(self@ =~= old(self)@.push(page@));
    }

    pub fn len(&self) -> (r: usize)
        ensures
            r == self@.len(),
    {
        self.dialogues.len()
    }

    pub fn is_empty(&self) -> (r: bool)
        ensures
            r == (self@.len() == 0),
    {
        self.dialogues.len() == 0
    }

    /// Removes and returns the page appended most recently, or nothing when the
    /// conversation has run out of pages.
    pub fn take_next(&mut self) -> (r: Option<Dialogue>)
        ensures
            old(self)@.len() == 0 ==> r is None && final(self)@ == old(self)@,
            old(self)@.len() > 0 ==> r is Some && r->0@ == old(self)@.last()
                && final(self)@ == old(self)@.drop_last(),
    {
        let r = self.dialogues.pop();
        assert(self@ =~= old(self)@.drop_last() || old(self)@.len() == 0);
        r
    }
}

/// What a dialogue display entity shows: one page on screen and the pages still to come.
pub struct DisplayView {
    pub page: PageView,
    pub queue: Seq<PageView>,
}

/// The on-screen composite for one open conversation: the current page, paired
/// with the queue of pages after it. It is replaced, never changed, on each advance.
pub struct DialogueDisplay {
    pub page: Dialogue,
    pub queue: DialogueQueue,
}

impl View for DialogueDisplay {
    type V = DisplayView;

    open spec fn view(&self) -> DisplayView {
        DisplayView { page: self.page@, queue: self.queue@ }
    }
}

impl DialogueDisplay {
    pub fn new(page: Dialogue, queue: DialogueQueue) -> (r: DialogueDisplay)
        ensures
            r@ == (DisplayView { page: page@, queue: queue@ }),
    {
        DialogueDisplay { page, queue }
    }
}

} // verus!
