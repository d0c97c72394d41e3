//! One-shot notices. A notice is queued while a request is handled and shown
//! with the next page that is rendered, once.

use vstd::prelude::*;

verus! {

#[derive(Clone, Copy, Debug, PartialEq, Eq, Structural)]
pub enum Level {
    Success,
    Error,
}

/// A notice: its severity and its text.
#[derive(Debug)]
pub struct Message {
    pub level: Level,
    pub text: String,
}

impl View for Message {
    type V = (Level, Seq<char>);

    open spec fn view(&self) -> (Level, Seq<char>) {
        (self.level, self.text@)
    }
}

/// The notices of a list, in order.
pub open spec fn notices(v: Seq<Message>) -> Seq<(Level, Seq<char>)> {
    Seq::new(v.len(), |i: int| v[i]@)
}

/// The queue of notices that wait to be shown.
pub struct Messages {
    queue: Vec<Message>,
}

impl View for Messages {
    type V = Seq<(Level, Seq<char>)>;

    closed spec fn view(&self) -> Seq<(Level, Seq<char>)> {
        notices(self.queue@)
    }
}

impl Messages {
    /// An empty queue.
    pub fn new() -> (m: Messages)
        ensures
            m@ == Seq::<(Level, Seq<char>)>::empty(),
    {
        let m = Messages { queue: Vec::new() };
        assert(m@ =~= Seq::<(Level, Seq<char>)>::empty());
        m
    }

    /// Queues `message` behind those that wait.
    pub fn push(&mut self, message: Message)
        ensures
            final(self)@ == old(self)@.push(message@),
    {
        self.queue.push(message);
        assert(self@ =~= old(self)@.push(message@));
    }

    /// Queues a success notice.
    pub fn success(&mut self, text: String)
        ensures
            final(self)@ == old(self)@.push((Level::Success, text@)),
    {
        self.push(Message { level: Level::Success, text });
    }

    /// Queues an error notice.
    pub fn error(&mut self, text: String)
        ensures
            final(self)@ == old(self)@.push((Level::Error, text@)),
    {
        self.push(Message { level: Level::Error, text });
    }

    /// How many notices wait.
    pub fn len(&self) -> (n: usize)
        ensures
            n == self@.len(),
    {
        self.queue.len()
    }

    /// Hands out every waiting notice, oldest first, and leaves the queue
    /// empty: what was handed out is not handed out again.
    pub fn take(&mut self) -> (shown: Vec<Message>)
        ensures
            (notices(shown@), final(self)@) == render(old(self)@),
    {
        let mut shown: Vec<Message> = Vec::new();
        std::mem::swap(&mut self.queue, &mut shown);
        assert(self@ =~= Seq::<(Level, Seq<char>)>::empty());
        shown
    }
}

/// What one rendering shows of a queue, and what it leaves.
pub open spec fn render(queue: Seq<(Level, Seq<char>)>) -> (
    Seq<(Level, Seq<char>)>,
    Seq<(Level, Seq<char>)>,
) {
    (queue, Seq::empty())
}

/// A notice queued before a page is rendered is shown on that page and not
/// on the page rendered after it.
pub proof fn shown_exactly_once(queue: Seq<(Level, Seq<char>)>, notice: (Level, Seq<char>))
    ensures
        render(queue.push(notice)).0.contains(notice),
        render(queue.push(notice)).0 == queue.push(notice),
        render(render(queue.push(notice)).1).0.len() == 0,
        render(render(queue.push(notice)).1).1.len() == 0,
{
    let q = queue.push(notice);
    assert(q[queue.len() as int] == notice);
}

} // verus!
