//! The title classifier: substring patterns and the scenes they lead to.

use vstd::prelude::*;
use crate::text::{occurs_in, same_text, title_contains};

verus! {

/// One classifier entry: a window whose title contains `title` belongs to the
/// scene named `scene_name`.
pub struct TitleEntry {
    pub title: String,
    pub scene_name: String,
}

/// Mapping from title patterns to destination scene names. Entries keep the
/// order in which their patterns were first inserted, and that is the order in
/// which matches are reported.
pub struct TitleMap {
    entries: Vec<TitleEntry>,
}

/// The patterns of `entries`, in order.
pub open spec fn patterns(entries: Seq<(Seq<char>, Seq<char>)>) -> Seq<Seq<char>> {
    Seq::new(entries.len(), |i: int| entries[i].0)
}

/// The entries after `title` has been mapped to `scene_name`: an entry with
/// that pattern gets the new scene name where it stands, a new pattern is
/// appended.
pub open spec fn assigned(
    entries: Seq<(Seq<char>, Seq<char>)>,
    title: Seq<char>,
    scene_name: Seq<char>,
) -> Seq<(Seq<char>, Seq<char>)> {
    if patterns(entries).contains(title) {
        entries.update(patterns(entries).index_of(title), (title, scene_name))
    } else {
        entries.push((title, scene_name))
    }
}

/// The scene name that `entries` maps the pattern `title` to, if any.
pub open spec fn scene_for(entries: Seq<(Seq<char>, Seq<char>)>, title: Seq<char>) -> Option<
    Seq<char>,
> {
    if patterns(entries).contains(title) {
        Some(entries[patterns(entries).index_of(title)].1)
    } else {
        None
    }
}

/// Position of the first entry at or after `from` whose pattern occurs in
/// `title`, if there is one.
pub open spec fn first_match(entries: Seq<(Seq<char>, Seq<char>)>, title: Seq<char>, from: int) -> Option<
    int,
>
    decreases entries.len() - from,
{
    if from < 0 || from >= entries.len() {
        None
    } else if occurs_in(entries[from].0, title) {
        Some(from)
    } else {
        first_match(entries, title, from + 1)
    }
}

/// Positions of all entries at or after `from` whose pattern occurs in
/// `title`, in ascending order.
pub open spec fn matches_from(entries: Seq<(Seq<char>, Seq<char>)>, title: Seq<char>, from: int) -> Seq<
    int,
>
    decreases entries.len() - from,
{
    if from < 0 || from >= entries.len() {
        Seq::empty()
    } else if occurs_in(entries[from].0, title) {
        seq![from] + matches_from(entries, title, from + 1)
    } else {
        matches_from(entries, title, from + 1)
    }
}

impl View for TitleMap {
    type V = Seq<(Seq<char>, Seq<char>)>;

    /// The entries as (pattern, scene name) pairs, in order.
    closed spec fn view(&self) -> Seq<(Seq<char>, Seq<char>)> {
        Seq::new(self.entries@.len(), |i: int| (self.entries@[i].title@, self.entries@[i].scene_name@))
    }
}

impl TitleMap {
    /// No pattern stands in the map twice, and the entries can be counted in
    /// a `usize`.
    pub open spec fn wf(&self) -> bool {
        &&& patterns(self@).no_duplicates()
        &&& self@.len() <= usize::MAX
    }

    /// A map without entries.
    pub fn new() -> (map: Self)
        ensures
            map.wf(),
            map@ == Seq::<(Seq<char>, Seq<char>)>::empty(),
    {
        Self { entries: Vec::new() }
    }

    /// Number of entries.
    pub fn len(&self) -> (n: usize)
        ensures
            n == self@.len(),
    {
        self.entries.len()
    }

    /// The pattern of the entry at position `i`.
    pub fn title(&self, i: usize) -> (title: &String)
        requires
            i < self@.len(),
        ensures
            title@ == self@[i as int].0,
    {
        &self.entries[i].title
    }

    /// The destination scene name of the entry at position `i`.
    pub fn scene_name(&self, i: usize) -> (scene_name: &String)
        requires
            i < self@.len(),
        ensures
            scene_name@ == self@[i as int].1,
    {
        &self.entries[i].scene_name
    }

    /// Position of the entry whose pattern is exactly `title`.
    fn position(&self, title: &str) -> (found: Option<usize>)
        requires
            self.wf(),
        ensures
            found is Some <==> patterns(self@).contains(title@),
            found matches Some(i) ==> i == patterns(self@).index_of(title@) && i < self@.len(),
    {
        let mut i: usize = 0;
        while i < self.entries.len()
            invariant
                i <= self.entries.len(),
                self.wf(),
                forall|k: int| 0 <= k < i ==> patterns(self@)[k] != title@,
            decreases self.entries.len() - i,
        {
            if same_text(self.entries[i].title.as_str(), title) {
                assert(patterns(self@)[i as int] == title@);
                return Some(i);
            }
            i += 1;
        }
        None
    }

    /// The destination scene name stored under exactly the pattern `title`.
    pub fn get(&self, title: &str) -> (scene_name: Option<&String>)
        requires
            self.wf(),
        ensures
            match scene_name {
                Some(name) => scene_for(self@, title@) == Some(name@),
                None => scene_for(self@, title@) is None,
            },
    {
        match self.position(title) {
            Some(i) => Some(&self.entries[i].scene_name),
            None => None,
        }
    }

    /// Maps the pattern `title` to `scene_name`, replacing the scene name of an
    /// entry that already has this pattern.
    pub fn insert(&mut self, title: String, scene_name: String)
        requires
            old(self).wf(),
        ensures
            final(self).wf(),
            final(self)@ == assigned(old(self)@, title@, scene_name@),
    {
        match self.position(title.as_str()) {
            Some(i) => {
                self.entries.set(i, TitleEntry { title, scene_name });
                assert(self@ =~= old(self)@.update(i as int, (title@, scene_name@)));
                assert(patterns(self@) =~= patterns(old(self)@));
            },
            None => {
                self.entries.push(TitleEntry { title, scene_name });
                assert(self.entries.len() == self.entries@.len());
                assert(self@ =~= old(self)@.push((title@, scene_name@)));
                assert(patterns(self@) =~= patterns(old(self)@).push(title@));
            },
        }
    }

    /// Position of the first entry at or after `from` whose pattern occurs in
    /// `title` as a substring.
    pub fn next_match(&self, title: &str, from: usize) -> (found: Option<usize>)
        ensures
            match found {
                Some(i) => first_match(self@, title@, from as int) == Some(i as int),
                None => first_match(self@, title@, from as int) is None,
            },
    {
        let mut i: usize = from;
        while i < self.entries.len()
            invariant
                from <= i,
                first_match(self@, title@, from as int) == first_match(self@, title@, i as int),
            decreases self.entries.len() - i,
        {
            if title_contains(title, self.entries[i].title.as_str()) {
                return Some(i);
            }
            i += 1;
        }
        None
    }

    /// Positions of all entries whose pattern occurs in `title` as a
    /// substring, in the order of the map.
    pub fn match_title(&self, title: &str) -> (found: Vec<usize>)
        ensures
            found@.len() == matches_from(self@, title@, 0).len(),
            forall|k: int| 0 <= k < found@.len() ==> found@[k] as int == matches_from(self@, title@, 0)[k],
    {
        let mut found: Vec<usize> = Vec::new();
        let mut i: usize = 0;
        while i < self.entries.len()
            invariant
                i <= self.entries.len(),
                matches_from(self@, title@, 0) =~= Seq::new(found@.len(), |k: int| found@[k] as int)
                    + matches_from(self@, title@, i as int),
            decreases self.entries.len() - i,
        {
            if title_contains(title, self.entries[i].title.as_str()) {
                found.push(i);
            }
            i += 1;
        }
        found
    }
}

} // verus!
