//! Focus history: the title that has focus now and the one that had it before.

use vstd::prelude::*;

verus! {

/// The two most recently observed window titles.
pub struct PrevTitle {
    pub cur_title: String,
    pub prev_title: String,
}

impl View for PrevTitle {
    type V = (Seq<char>, Seq<char>);

    /// The pair (current title, previous title).
    open spec fn view(&self) -> (Seq<char>, Seq<char>) {
        (self.cur_title@, self.prev_title@)
    }
}

/// The history after `title` has been observed: it becomes the current title,
/// the former current title becomes the previous one, and the former previous
/// title is forgotten.
pub open spec fn observed(history: (Seq<char>, Seq<char>), title: Seq<char>) -> (
    Seq<char>,
    Seq<char>,
) {
    (title, history.0)
}

/// The history after every title of `titles` has been observed, first to last.
pub open spec fn observed_all(history: (Seq<char>, Seq<char>), titles: Seq<Seq<char>>) -> (
    Seq<char>,
    Seq<char>,
)
    decreases titles.len(),
{
    if titles.len() == 0 {
        history
    } else {
        observed(observed_all(history, titles.drop_last()), titles.last())
    }
}

impl PrevTitle {
    /// The history before any window has been seen: both titles are empty.
    pub fn new() -> (history: Self)
        ensures
            history@ == (Seq::<char>::empty(), Seq::<char>::empty()),
    {
        Self { cur_title: String::new(), prev_title: String::new() }
    }

    /// Records that the window titled `new_title` has received focus.
    pub fn observe(&mut self, new_title: &str)
        ensures
            final(self)@ == observed(old(self)@, new_title@),
    {
        self.prev_title = self.cur_title.clone();
        self.cur_title = new_title.to_owned();
    }
}

/// History correctness: after two or more titles have been observed in order,
/// the history holds the last of them as the current title and the one before
/// it as the previous title, whatever it held at the start.
pub proof fn history_keeps_last_two(history: (Seq<char>, Seq<char>), titles: Seq<Seq<char>>)
    requires
        titles.len() >= 2,
    ensures
        observed_all(history, titles) == (titles[titles.len() - 1], titles[titles.len() - 2]),
{
    let but_last = titles.drop_last();
    assert(observed_all(history, but_last) == observed(
        observed_all(history, but_last.drop_last()),
        but_last.last(),
    ));
}

/// After the titles `a`, `b` and `c` have been observed in this order, the
/// current title is `c` and the previous title is `b`.
pub proof fn history_after_three(history: (Seq<char>, Seq<char>), a: Seq<char>, b: Seq<char>, c: Seq<char>)
    ensures
        observed(observed(observed(history, a), b), c) == (c, b),
{
}

} // verus!
