//! Scene identifiers and the directed graph of permitted transitions.

use vstd::prelude::*;
use crate::text::same_text;

verus! {

/// Number of scene names one table can hold: every identifier is a non-zero `u16`.
pub const MAX_SCENES: usize = 65535;

/// A permitted switch from the scene `src` to the scene `dst`.
#[derive(Clone, Copy, Debug)]
pub struct Transition {
    pub src: u16,
    pub dst: u16,
}

/// Interning table of scene names together with the transition graph over the
/// identifiers it has handed out.
pub struct SceneNums {
    transitions: Vec<Transition>,
    names: Vec<String>,
}

/// The table `names` after `name` has been looked up in it: unchanged when the
/// name is known, extended by it otherwise.
pub open spec fn interned(names: Seq<Seq<char>>, name: Seq<char>) -> Seq<Seq<char>> {
    if names.contains(name) {
        names
    } else {
        names.push(name)
    }
}

/// The identifier that `name` has in a table that holds it: its position,
/// counted from one.
pub open spec fn num_of(names: Seq<Seq<char>>, name: Seq<char>) -> int {
    names.index_of(name) + 1
}

/// The edge list `edges` after the transition `src -> dst` has been offered to
/// it: a self-loop or a known edge changes nothing.
pub open spec fn linked(edges: Seq<(u16, u16)>, src: u16, dst: u16) -> Seq<(u16, u16)> {
    if src != dst && !edges.contains((src, dst)) {
        edges.push((src, dst))
    } else {
        edges
    }
}

/// In a table without repeated names, the identifier of the name at position
/// `i` is `i + 1`.
pub proof fn lemma_num_of(names: Seq<Seq<char>>, name: Seq<char>, i: int)
    requires
        names.no_duplicates(),
        0 <= i < names.len(),
        names[i] == name,
    ensures
        names.contains(name),
        num_of(names, name) == i + 1,
{
}

/// The identifier of a name that a table holds is the position, counted from
/// one, at which the name stands.
pub proof fn lemma_num_of_holds(names: Seq<Seq<char>>, name: Seq<char>)
    requires
        names.contains(name),
    ensures
        1 <= num_of(names, name) <= names.len(),
        names[num_of(names, name) - 1] == name,
{
}

/// A table holds a name once it has been looked up, and keeps every name it held.
pub proof fn lemma_interned_holds(names: Seq<Seq<char>>, name: Seq<char>)
    ensures
        interned(names, name).contains(name),
        forall|other: Seq<char>| names.contains(other) ==> #[trigger] interned(names, name).contains(other),
        names.no_duplicates() ==> interned(names, name).no_duplicates(),
{
    if !names.contains(name) {
        let after = names.push(name);
        assert(after[names.len() as int] == name);
        assert forall|other: Seq<char>| names.contains(other) implies after.contains(other) by {
            let k = names.index_of(other);
            assert(after[k] == other);
        }
    }
}

impl SceneNums {
    /// The interned names in order of first use. The name at position `i` has
    /// the identifier `i + 1`.
    pub closed spec fn names(&self) -> Seq<Seq<char>> {
        Seq::new(self.names@.len(), |i: int| self.names@[i]@)
    }

    /// The stored transitions in order of insertion.
    pub closed spec fn edges(&self) -> Seq<(u16, u16)> {
        Seq::new(self.transitions@.len(), |i: int| (self.transitions@[i].src, self.transitions@[i].dst))
    }

    /// No name is interned twice, every identifier fits in a `u16`, no
    /// transition is stored twice and none is a self-loop.
    pub open spec fn wf(&self) -> bool {
        &&& self.names().no_duplicates()
        &&& self.names().len() <= MAX_SCENES
        &&& self.edges().no_duplicates()
        &&& forall|i: int| 0 <= i < self.edges().len() ==> (#[trigger] self.edges()[i]).0 != self.edges()[i].1
    }

    /// An empty table: no names, no transitions.
    pub fn new() -> (table: Self)
        ensures
            table.wf(),
            table.names() == Seq::<Seq<char>>::empty(),
            table.edges() == Seq::<(u16, u16)>::empty(),
    {
        Self { transitions: Vec::new(), names: Vec::new() }
    }

    /// Number of interned names, which is also the largest identifier handed out.
    pub fn len(&self) -> (n: usize)
        ensures
            n == self.names().len(),
    {
        self.names.len()
    }

    /// Number of stored transitions.
    pub fn transition_count(&self) -> (n: usize)
        ensures
            n == self.edges().len(),
    {
        self.transitions.len()
    }

    /// The identifier of `scene_name`, assigned on first use: the next free
    /// number for a new name, the number it already has for a known one.
    pub fn get_num(&mut self, scene_name: &str) -> (num: u16)
        requires
            old(self).wf(),
            interned(old(self).names(), scene_name@).len() <= MAX_SCENES,
        ensures
            final(self).wf(),
            final(self).names() == interned(old(self).names(), scene_name@),
            final(self).edges() == old(self).edges(),
            num == num_of(final(self).names(), scene_name@),
            1 <= num <= final(self).names().len(),
            final(self).names()[num - 1] == scene_name@,
    {
        let mut i: usize = 0;
        while i < self.names.len()
            invariant
                i <= self.names.len(),
                self.wf(),
                *self == *old(self),
                forall|k: int| 0 <= k < i ==> self.names()[k] != scene_name@,
            decreases self.names.len() - i,
        {
            if same_text(self.names[i].as_str(), scene_name) {
                proof {
                    assert(self.names()[i as int] == scene_name@);
                    lemma_num_of(self.names(), scene_name@, i as int);
                }
                return (i + 1) as u16;
            }
            i += 1;
        }
        assert(!self.names().contains(scene_name@));
        self.names.push(scene_name.to_owned());
        proof {
            assert(self.names() =~= old(self).names().push(scene_name@));
            assert(self.edges() =~= old(self).edges());
            lemma_num_of(self.names(), scene_name@, i as int);
        }
        (i + 1) as u16
    }

    /// Whether the transition `src -> dst` is stored.
    pub fn has_transition(&self, src: u16, dst: u16) -> (found: bool)
        ensures
            found == self.edges().contains((src, dst)),
    {
        let mut i: usize = 0;
        while i < self.transitions.len()
            invariant
                i <= self.transitions.len(),
                forall|k: int| 0 <= k < i ==> self.edges()[k] != (src, dst),
            decreases self.transitions.len() - i,
        {
            if self.transitions[i].src == src && self.transitions[i].dst == dst {
                assert(self.edges()[i as int] == (src, dst));
                return true;
            }
            i += 1;
        }
        false
    }

    /// Stores the transition `src -> dst` unless it is a self-loop or already stored.
    pub fn add_transition(&mut self, src: u16, dst: u16)
        requires
            old(self).wf(),
        ensures
            final(self).wf(),
            final(self).names() == old(self).names(),
            final(self).edges() == linked(old(self).edges(), src, dst),
    {
        if src != dst && !self.has_transition(src, dst) {
            self.transitions.push(Transition { src, dst });
            assert(self.edges() =~= old(self).edges().push((src, dst)));
            assert(self.names() =~= old(self).names());
        }
    }
}

/// The table `names` after every name of `lookups` has been looked up in it,
/// first to last.
pub open spec fn interned_all(names: Seq<Seq<char>>, lookups: Seq<Seq<char>>) -> Seq<Seq<char>>
    decreases lookups.len(),
{
    if lookups.len() == 0 {
        names
    } else {
        interned(interned_all(names, lookups.drop_last()), lookups.last())
    }
}

/// Lookups only ever extend a table: what it held stays where it was, and no
/// name comes to stand in it twice.
pub proof fn lemma_interned_all_extends(names: Seq<Seq<char>>, lookups: Seq<Seq<char>>)
    requires
        names.no_duplicates(),
    ensures
        interned_all(names, lookups).no_duplicates(),
        names.len() <= interned_all(names, lookups).len(),
        forall|i: int| 0 <= i < names.len() ==> interned_all(names, lookups)[i] == names[i],
    decreases lookups.len(),
{
    if lookups.len() > 0 {
        lemma_interned_all_extends(names, lookups.drop_last());
    }
}

/// Interning is stable. Looking a name up a second time changes nothing and
/// gives the identifier of the first time, and so does a lookup after any
/// number of lookups of other or the same names: an identifier, once handed
/// out, is never reassigned.
pub proof fn interning_is_stable(table: SceneNums, name: Seq<char>, lookups: Seq<Seq<char>>)
    requires
        table.wf(),
    ensures
        interned(interned(table.names(), name), name) == interned(table.names(), name),
        num_of(interned_all(interned(table.names(), name), lookups), name) == num_of(
            interned(table.names(), name),
            name,
        ),
{
    let first = interned(table.names(), name);
    let i = if table.names().contains(name) {
        table.names().index_of(name)
    } else {
        table.names().len() as int
    };
    lemma_num_of(first, name, i);
    lemma_interned_all_extends(first, lookups);
    lemma_num_of(interned_all(first, lookups), name, i);
}

/// Distinct names never collide: two different names of one table have
/// different identifiers.
pub proof fn distinct_names_never_collide(table: SceneNums, a: Seq<char>, b: Seq<char>)
    requires
        table.wf(),
        table.names().contains(a),
        table.names().contains(b),
        a != b,
    ensures
        num_of(table.names(), a) != num_of(table.names(), b),
{
}

/// No self-loops: offering `x -> x` to a graph never makes `x -> x` one of its
/// transitions.
pub proof fn self_loops_are_never_stored(table: SceneNums, x: u16)
    requires
        table.wf(),
    ensures
        linked(table.edges(), x, x) == table.edges(),
        !linked(table.edges(), x, x).contains((x, x)),
{
}

/// Idempotent edges: offering a transition twice leaves the same edges as
/// offering it once.
pub proof fn adding_twice_is_adding_once(edges: Seq<(u16, u16)>, a: u16, b: u16)
    ensures
        linked(linked(edges, a, b), a, b) == linked(edges, a, b),
{
    if a != b && !edges.contains((a, b)) {
        assert(edges.push((a, b))[edges.len() as int] == (a, b));
    }
}

/// Directionality: offering `a -> b` adds at most that one transition. Every
/// other pair, `b -> a` among them, is a transition afterwards exactly if it
/// was one before.
pub proof fn adding_is_directed(edges: Seq<(u16, u16)>, a: u16, b: u16, c: u16, d: u16)
    requires
        (c, d) != (a, b),
    ensures
        linked(edges, a, b).contains((c, d)) == edges.contains((c, d)),
{
    if a != b && !edges.contains((a, b)) {
        let after = edges.push((a, b));
        if edges.contains((c, d)) {
            let i = edges.index_of((c, d));
            assert(after[i] == (c, d));
        }
        if after.contains((c, d)) {
            let i = after.index_of((c, d));
            assert(edges[i] == (c, d));
        }
    }
}

} // verus!
