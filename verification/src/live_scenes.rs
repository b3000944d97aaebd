//! A snapshot of the scenes that the host currently offers.

use vstd::prelude::*;
use crate::text::{lossy_string, lossy_text, same_text};

verus! {

/// One scene as the host reports it: its name and the handle that stands for it.
pub struct LiveScene {
    pub name: String,
    pub scene: usize,
}

/// The host's scenes at one moment, in the order in which the host listed
/// them. Lookups by name and by handle go by the last scene listed under that
/// name or handle.
pub struct LiveScenes {
    scenes: Vec<LiveScene>,
}

/// The handle of the last scene of `scenes` that is called `name`.
pub open spec fn scene_named(scenes: Seq<(Seq<char>, usize)>, name: Seq<char>) -> Option<usize>
    decreases scenes.len(),
{
    if scenes.len() == 0 {
        None
    } else if scenes.last().0 == name {
        Some(scenes.last().1)
    } else {
        scene_named(scenes.drop_last(), name)
    }
}

/// The name of the last scene of `scenes` that has the handle `scene`.
pub open spec fn name_of_scene(scenes: Seq<(Seq<char>, usize)>, scene: usize) -> Option<Seq<char>>
    decreases scenes.len(),
{
    if scenes.len() == 0 {
        None
    } else if scenes.last().1 == scene {
        Some(scenes.last().0)
    } else {
        name_of_scene(scenes.drop_last(), scene)
    }
}

impl View for LiveScenes {
    type V = Seq<(Seq<char>, usize)>;

    /// The scenes as (name, handle) pairs, in the host's order.
    closed spec fn view(&self) -> Seq<(Seq<char>, usize)> {
        Seq::new(self.scenes@.len(), |i: int| (self.scenes@[i].name@, self.scenes@[i].scene))
    }
}

impl LiveScenes {
    /// A snapshot without scenes.
    pub fn new() -> (snapshot: Self)
        ensures
            snapshot@ == Seq::<(Seq<char>, usize)>::empty(),
    {
        Self { scenes: Vec::new() }
    }

    /// Adds the scene called `name` with the handle `scene` as the last one listed.
    pub fn insert(&mut self, name: String, scene: usize)
        ensures
            final(self)@ == old(self)@.push((name@, scene)),
    {
        self.scenes.push(LiveScene { name, scene });
        assert(self@ =~= old(self)@.push((name@, scene)));
    }

    /// Adds the scene with the handle `scene` as the last one listed, under
    /// the name that the host gave as the bytes `name`.
    pub fn insert_lossy(&mut self, name: &[u8], scene: usize)
        ensures
            final(self)@ == old(self)@.push((lossy_text(name@), scene)),
    {
        self.insert(lossy_string(name), scene);
    }

    /// Number of scenes listed.
    pub fn len(&self) -> (n: usize)
        ensures
            n == self@.len(),
    {
        self.scenes.len()
    }

    /// The handle of the scene called `name`, if the host offers one.
    pub fn scene_by_name(&self, name: &str) -> (scene: Option<usize>)
        ensures
            scene == scene_named(self@, name@),
    {
        let mut i: usize = self.scenes.len();
        assert(self@.take(i as int) =~= self@);
        while i > 0
            invariant
                i <= self.scenes.len(),
                scene_named(self@, name@) == scene_named(self@.take(i as int), name@),
            decreases i,
        {
            i -= 1;
            assert(self@.take(i + 1).drop_last() =~= self@.take(i as int));
            if same_text(self.scenes[i].name.as_str(), name) {
                return Some(self.scenes[i].scene);
            }
        }
        None
    }

    /// The name of the scene that has the handle `scene`, if the host offers it.
    pub fn name_by_scene(&self, scene: usize) -> (name: Option<&String>)
        ensures
            match name {
                Some(name) => name_of_scene(self@, scene) == Some(name@),
                None => name_of_scene(self@, scene) is None,
            },
    {
        let mut i: usize = self.scenes.len();
        assert(self@.take(i as int) =~= self@);
        while i > 0
            invariant
                i <= self.scenes.len(),
                name_of_scene(self@, scene) == name_of_scene(self@.take(i as int), scene),
            decreases i,
        {
            i -= 1;
            assert(self@.take(i + 1).drop_last() =~= self@.take(i as int));
            if self.scenes[i].scene == scene {
                return Some(&self.scenes[i].name);
            }
        }
        None
    }
}

} // verus!
