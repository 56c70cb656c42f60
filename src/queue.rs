use vstd::prelude::*;

verus! {

/// One submitted comment. Its fields never change while it is queued.
pub struct Comment {
    pub id: i32,
    pub author: String,
    pub text: String,
}

/// The mathematical value of a comment.
pub struct CommentView {
    pub id: i32,
    pub author: Seq<char>,
    pub text: Seq<char>,
}

impl View for Comment {
    type V = CommentView;

    open spec fn view(&self) -> CommentView {
        CommentView { id: self.id, author: self.author@, text: self.text@ }
    }
}

/// The comment that `add_comment(id, author, text)` builds.
pub open spec fn comment_of(id: i32, author: Seq<char>, text: Seq<char>) -> CommentView {
    CommentView { id, author, text }
}

/// The queue after appending `c` at the tail.
pub open spec fn add_spec(q: Seq<CommentView>, c: CommentView) -> Seq<CommentView> {
    q.push(c)
}

/// The text handed out by a pop: that of the head, or nothing on an empty queue.
pub open spec fn pop_result(q: Seq<CommentView>) -> Option<Seq<char>> {
    if q.len() == 0 {
        None
    } else {
        Some(q[0].text)
    }
}

/// The queue after a pop: the head removed, or unchanged when empty.
pub open spec fn pop_rest(q: Seq<CommentView>) -> Seq<CommentView> {
    if q.len() == 0 {
        q
    } else {
        q.drop_first()
    }
}

/// Pending comments in arrival order; the head is the oldest.
pub struct CommentQueue {
    items: Vec<Comment>,
}

impl View for CommentQueue {
    type V = Seq<CommentView>;

    closed spec fn view(&self) -> Seq<CommentView> {
        self.items@.map_values(|c: Comment| c@)
    }
}

impl CommentQueue {
    /// An empty queue.
    pub fn new() -> (r: CommentQueue)
        ensures
            r@ == Seq::<CommentView>::empty(),
    {
        let r = CommentQueue { items: Vec::new() };
        assert(r@ =~= Seq::<CommentView>::empty());
        r
    }

    /// Appends a new comment at the tail; every input is accepted.
    pub fn add_comment(&mut self, id: i32, author: String, text: String)
        ensures
            final(self)@ == add_spec(old(self)@, comment_of(id, author@, text@)),
    {
        let new_comment = Comment { id, author, text };
        self.items.push(new_comment);
        assert(self@ =~= add_spec(old(self)@, comment_of(id, author@, text@)));
    }

    /// Removes the head and returns its text, or `None` when the queue is empty.
    pub fn pop_next_text(&mut self) -> (r: Option<String>)
        ensures
            r.deep_view() == pop_result(old(self)@),
            final(self)@ == pop_rest(old(self)@),
    {
        if self.items.is_empty() {
            None
        } else {
            let comment = self.items.remove(0);
            assert(self@ =~= pop_rest(old(self)@));
            Some(comment.text)
        }
    }
}

} // verus!
