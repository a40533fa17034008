use vstd::prelude::*;

verus! {

/// The Shared Selection Buffer: the single process-wide string slot that an
/// about-to-open window reads to obtain the text it must display. The
/// trigger side replaces the contents in full before it requests the window,
/// so the window's content load observes exactly the text of its own
/// trigger, never a prior or partial value. The host wraps the owner of this
/// value in its mutual-exclusion primitive; the contracts here describe one
/// serialized access at a time.
pub struct SelectionBuffer {
    text: String,
}

impl View for SelectionBuffer {
    type V = Seq<char>;

    closed spec fn view(&self) -> Seq<char> {
        self.text@
    }
}

impl SelectionBuffer {
    /// An empty buffer, the state before the first capture.
    pub fn new() -> (r: SelectionBuffer)
        ensures
            r@ === Seq::<char>::empty(),
    {
        SelectionBuffer { text: String::new() }
    }

    /// Replaces the whole contents; nothing of the prior value survives.
    pub fn set_text(&mut self, text: String)
        ensures
            final(self)@ == text@,
    {
        self.text = text;
    }

    /// The window-side content load: exactly the current contents.
    pub fn read_text(&self) -> (r: &String)
        ensures
            r@ == self@,
    {
        &self.text
    }
}

/// Buffer ordering: a trigger's store completes before the window it opens
/// loads its content, so the buffer the load finds holds exactly the text
/// that trigger stored — and never a prior value, unless the prior value was
/// the same text.
pub proof fn lemma_buffer_ordering(b: SelectionBuffer, stored: Seq<char>, prior: Seq<char>)
    requires
        b@ == stored,
    ensures
        b@ == stored,
        prior != stored ==> b@ != prior,
{
}

} // verus!
