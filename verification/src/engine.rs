//! The decision engine and the event loop that drives it.
//!
//! The engine never talks to the host. It answers every event with a [`Step`]
//! that tells the caller what to do next, and it takes the host's scenes as a
//! [`LiveScenes`] snapshot whenever it has asked for one.

use vstd::prelude::*;
use crate::live_scenes::{name_of_scene, scene_named, LiveScenes};
use crate::prev_title::{observed, PrevTitle};
use crate::scene_nums::{
    interned, lemma_interned_holds, lemma_num_of, lemma_num_of_holds, linked, num_of, SceneNums,
    MAX_SCENES,
};
use crate::text::{occurs_in, title_contains};
use crate::title_map::{assigned, first_match, patterns, scene_for, TitleMap};

verus! {

/// Title pattern of the gateway application, which may always be switched to.
pub const TITLE_STREAMRAIDERS: &'static str = "Stream Raiders";

/// Scene of the gateway application.
pub const SCENE_STREAMRAIDERS: &'static str = "StreamRaiders";

/// Scene of the paint application.
pub const SCENE_CLIP: &'static str = "Art-Clip";

/// Scene of the modelling application.
pub const SCENE_BLENDER: &'static str = "Art-Blender";

/// Scene of the game editor.
pub const SCENE_UNITY: &'static str = "Art-Unity";

/// An event of the engine's queue.
#[derive(Clone, Debug, PartialEq, Eq)]
pub enum Action {
    /// The window with this title has received focus.
    Title(String),
    /// The engine is to shut down.
    Exit,
}

/// Where the engine stands between two calls.
#[derive(Clone, Copy, Debug, PartialEq, Eq, Structural)]
pub enum Stage {
    /// No title is being processed.
    Idle,
    /// The current title matched the classifier entry at this position, and
    /// the engine waits for the host's scenes to decide on it.
    Candidate(usize),
    /// The current title is the gateway's, no classifier entry led to a
    /// switch, and the engine waits for the host's scenes.
    Gateway,
    /// The engine has shut down.
    Stopped,
}

/// What the caller has to do after a call.
#[derive(Clone, Copy, Debug, PartialEq, Eq, Structural)]
pub enum Step {
    /// Nothing: the event is done with, wait for the next one.
    Wait,
    /// Take a fresh snapshot of the host's scenes and of its active scene and
    /// hand both to `handle_scenes`.
    Query,
    /// Make the scene with this handle the active one; the event is done with.
    Activate(usize),
    /// Acknowledge the shutdown and take no further event.
    Halt,
}

/// The engine's state as plain values.
pub struct EngineView {
    /// Classifier entries as (pattern, scene name) pairs, in order.
    pub classifier: Seq<(Seq<char>, Seq<char>)>,
    /// Interned scene names; the name at position `i` has the identifier `i + 1`.
    pub names: Seq<Seq<char>>,
    /// Permitted transitions between scene identifiers.
    pub edges: Seq<(u16, u16)>,
    /// Title of the window that has focus.
    pub cur_title: Seq<char>,
    /// Title of the window that had focus before.
    pub prev_title: Seq<char>,
    pub stage: Stage,
}

/// The state is well-formed: no pattern and no scene name stands twice, the
/// entries can be counted in a `usize` and the identifiers fit in a `u16`, no
/// transition stands twice or is a self-loop, and a pending candidate is an
/// entry whose pattern occurs in the current title.
pub open spec fn valid(v: EngineView) -> bool {
    &&& patterns(v.classifier).no_duplicates()
    &&& v.classifier.len() <= usize::MAX
    &&& v.names.no_duplicates()
    &&& v.names.len() <= MAX_SCENES
    &&& v.edges.no_duplicates()
    &&& forall|k: int| 0 <= k < v.edges.len() ==> (#[trigger] v.edges[k]).0 != v.edges[k].1
    &&& v.stage matches Stage::Candidate(i) ==> i < v.classifier.len() && occurs_in(
        v.classifier[i as int].0,
        v.cur_title,
    )
}

/// The engine waits for a snapshot of the host's scenes.
pub open spec fn awaiting(stage: Stage) -> bool {
    stage is Candidate || stage is Gateway
}

/// The stage in which the title `title` is once the classifier entries before
/// `from` are done with: the next matching entry is the candidate; without
/// one the title is the gateway's or is finished.
pub open spec fn stage_from(classifier: Seq<(Seq<char>, Seq<char>)>, title: Seq<char>, from: int) -> Stage {
    match first_match(classifier, title, from) {
        Some(i) => Stage::Candidate(i as usize),
        None => if occurs_in(TITLE_STREAMRAIDERS@, title) {
            Stage::Gateway
        } else {
            Stage::Idle
        },
    }
}

/// The step that leads on from `stage`.
pub open spec fn step_for(stage: Stage) -> Step {
    match stage {
        Stage::Idle => Step::Wait,
        Stage::Candidate(_) => Step::Query,
        Stage::Gateway => Step::Query,
        Stage::Stopped => Step::Halt,
    }
}

/// A focus event: the title enters the history, and its first matching
/// classifier entry, if any, becomes the candidate. A stopped engine ignores it.
pub open spec fn on_title(v: EngineView, title: Seq<char>) -> (EngineView, Step) {
    if v.stage is Stopped {
        (v, Step::Halt)
    } else {
        let stage = stage_from(v.classifier, title, 0);
        (
            EngineView {
                cur_title: observed((v.cur_title, v.prev_title), title).0,
                prev_title: observed((v.cur_title, v.prev_title), title).1,
                stage,
                ..v
            },
            step_for(stage),
        )
    }
}

/// An event of the queue: a title is handled as `on_title` says, a shutdown
/// stops the engine for good.
pub open spec fn on_action(v: EngineView, action: Action) -> (EngineView, Step) {
    match action {
        Action::Title(title) => on_title(v, title@),
        Action::Exit => (EngineView { stage: Stage::Stopped, ..v }, Step::Halt),
    }
}

/// The candidate at position `i` is passed over: the title goes on to its
/// next stage.
pub open spec fn candidate_skipped(v: EngineView, i: int) -> (EngineView, Step) {
    let stage = stage_from(v.classifier, v.cur_title, i + 1);
    (EngineView { stage, ..v }, step_for(stage))
}

/// The decision on the candidate at position `i`, given the host's scenes and
/// the handle of its active scene.
///
/// The candidate is passed over when its destination scene is not live or when
/// the active scene is not among the live ones. Otherwise both scene names are
/// interned, the active scene's first, and the destination is activated if the
/// graph permits the transition; if it does not, the candidate is passed over.
pub open spec fn on_candidate(v: EngineView, i: int, scenes: Seq<(Seq<char>, usize)>, current: usize) -> (
    EngineView,
    Step,
) {
    let dst_name = v.classifier[i].1;
    match (scene_named(scenes, dst_name), name_of_scene(scenes, current)) {
        (Some(dst_scene), Some(src_name)) => {
            let names = interned(interned(v.names, src_name), dst_name);
            let src = num_of(names, src_name) as u16;
            let dst = num_of(names, dst_name) as u16;
            if v.edges.contains((src, dst)) {
                (EngineView { names, stage: Stage::Idle, ..v }, Step::Activate(dst_scene))
            } else {
                candidate_skipped(EngineView { names, ..v }, i)
            }
        },
        _ => candidate_skipped(v, i),
    }
}

/// The gateway stage, given the host's scenes and the handle of its active
/// scene.
///
/// The gateway's scene is activated if it is live, whatever the graph says.
/// If the active scene is among the live ones, the engine learns the way
/// back: the previous title is mapped to the active scene's name, and the
/// transition from the gateway's scene to the active scene is permitted.
pub open spec fn on_gateway(v: EngineView, scenes: Seq<(Seq<char>, usize)>, current: usize) -> (
    EngineView,
    Step,
) {
    let step = match scene_named(scenes, SCENE_STREAMRAIDERS@) {
        Some(dst_scene) => Step::Activate(dst_scene),
        None => Step::Wait,
    };
    match name_of_scene(scenes, current) {
        Some(src_name) => {
            let names = interned(interned(v.names, src_name), SCENE_STREAMRAIDERS@);
            let whatever = num_of(names, src_name) as u16;
            let raiders = num_of(names, SCENE_STREAMRAIDERS@) as u16;
            (
                EngineView {
                    classifier: assigned(v.classifier, v.prev_title, src_name),
                    names,
                    edges: linked(v.edges, raiders, whatever),
                    stage: Stage::Idle,
                    ..v
                },
                step,
            )
        },
        None => (EngineView { stage: Stage::Idle, ..v }, step),
    }
}

/// The host's answer to a `Query`: the decision of the stage the engine is in.
/// An engine that has not asked leaves the answer aside.
pub open spec fn on_scenes(v: EngineView, scenes: Seq<(Seq<char>, usize)>, current: usize) -> (
    EngineView,
    Step,
) {
    match v.stage {
        Stage::Idle => (v, Step::Wait),
        Stage::Candidate(i) => on_candidate(v, i as int, scenes, current),
        Stage::Gateway => on_gateway(v, scenes, current),
        Stage::Stopped => (v, Step::Halt),
    }
}

/// The state with which every run starts: the built-in title patterns, the
/// four built-in scenes with the identifiers 1 to 4, a transition between
/// every two of them, and an empty history.
pub open spec fn seed() -> EngineView {
    EngineView {
        classifier: seq![
            ("CLIP STUDIO PAINT"@, SCENE_CLIP@),
            ("Blender"@, SCENE_BLENDER@),
            ("Unity"@, SCENE_UNITY@),
            (TITLE_STREAMRAIDERS@, SCENE_STREAMRAIDERS@),
        ],
        names: seq![SCENE_CLIP@, SCENE_BLENDER@, SCENE_UNITY@, SCENE_STREAMRAIDERS@],
        edges: seq![
            (1u16, 2u16),
            (1u16, 3u16),
            (1u16, 4u16),
            (2u16, 1u16),
            (2u16, 3u16),
            (2u16, 4u16),
            (3u16, 1u16),
            (3u16, 2u16),
            (3u16, 4u16),
            (4u16, 1u16),
            (4u16, 2u16),
            (4u16, 3u16),
        ],
        cur_title: Seq::empty(),
        prev_title: Seq::empty(),
        stage: Stage::Idle,
    }
}

/// The decision engine: classifier, transition graph, focus history, and the
/// stage of the title that is being processed.
pub struct Engine {
    title_to_scene_name: TitleMap,
    scene_nums: SceneNums,
    prev_title: PrevTitle,
    stage: Stage,
}

impl View for Engine {
    type V = EngineView;

    closed spec fn view(&self) -> EngineView {
        EngineView {
            classifier: self.title_to_scene_name@,
            names: self.scene_nums.names(),
            edges: self.scene_nums.edges(),
            cur_title: self.prev_title.cur_title@,
            prev_title: self.prev_title.prev_title@,
            stage: self.stage,
        }
    }
}

impl Engine {
    /// The engine's state is well-formed.
    pub open spec fn wf(&self) -> bool {
        valid(self@)
    }

    /// The engine as every run starts it: see [`seed`].
    pub fn new() -> (engine: Self)
        ensures
            engine.wf(),
            engine@ == seed(),
    {
        proof {
            reveal_strlit("CLIP STUDIO PAINT");
            reveal_strlit("Blender");
            reveal_strlit("Unity");
            reveal_strlit("Stream Raiders");
            reveal_strlit("Art-Clip");
            reveal_strlit("Art-Blender");
            reveal_strlit("Art-Unity");
            reveal_strlit("StreamRaiders");
            // No two patterns and no two scene names have the same length.
            assert("CLIP STUDIO PAINT"@.len() == 17 && "Blender"@.len() == 7);
            assert("Unity"@.len() == 5 && TITLE_STREAMRAIDERS@.len() == 14);
            assert(SCENE_CLIP@.len() == 8 && SCENE_BLENDER@.len() == 11);
            assert(SCENE_UNITY@.len() == 9 && SCENE_STREAMRAIDERS@.len() == 13);
        }
        let mut title_to_scene_name = TitleMap::new();
        title_to_scene_name.insert("CLIP STUDIO PAINT".to_owned(), SCENE_CLIP.to_owned());
        assert(title_to_scene_name@ =~= seed().classifier.take(1));
        title_to_scene_name.insert("Blender".to_owned(), SCENE_BLENDER.to_owned());
        assert(title_to_scene_name@ =~= seed().classifier.take(2));
        title_to_scene_name.insert("Unity".to_owned(), SCENE_UNITY.to_owned());
        assert(title_to_scene_name@ =~= seed().classifier.take(3));
        title_to_scene_name.insert(TITLE_STREAMRAIDERS.to_owned(), SCENE_STREAMRAIDERS.to_owned());
        assert(title_to_scene_name@ =~= seed().classifier);

        let mut scene_nums = SceneNums::new();
        let clip = scene_nums.get_num(SCENE_CLIP);
        assert(scene_nums.names() =~= seed().names.take(1));
        let blender = scene_nums.get_num(SCENE_BLENDER);
        assert(scene_nums.names() =~= seed().names.take(2));
        let unity = scene_nums.get_num(SCENE_UNITY);
        assert(scene_nums.names() =~= seed().names.take(3));
        let raiders = scene_nums.get_num(SCENE_STREAMRAIDERS);
        assert(scene_nums.names() =~= seed().names);

        scene_nums.add_transition(clip, blender);
        scene_nums.add_transition(clip, unity);
        scene_nums.add_transition(clip, raiders);
        scene_nums.add_transition(blender, clip);
        scene_nums.add_transition(blender, unity);
        scene_nums.add_transition(blender, raiders);
        scene_nums.add_transition(unity, clip);
        scene_nums.add_transition(unity, blender);
        scene_nums.add_transition(unity, raiders);
        scene_nums.add_transition(raiders, clip);
        scene_nums.add_transition(raiders, blender);
        scene_nums.add_transition(raiders, unity);

        let engine = Engine::from_parts(title_to_scene_name, scene_nums, PrevTitle::new());
        assert(engine@.edges =~= seed().edges);
        engine
    }

    /// An idle engine over the given classifier, graph and history.
    pub fn from_parts(title_to_scene_name: TitleMap, scene_nums: SceneNums, prev_title: PrevTitle) -> (engine:
        Self)
        requires
            title_to_scene_name.wf(),
            scene_nums.wf(),
        ensures
            engine.wf(),
            engine@ == (EngineView {
                classifier: title_to_scene_name@,
                names: scene_nums.names(),
                edges: scene_nums.edges(),
                cur_title: prev_title.cur_title@,
                prev_title: prev_title.prev_title@,
                stage: Stage::Idle,
            }),
    {
        Self { title_to_scene_name, scene_nums, prev_title, stage: Stage::Idle }
    }

    /// The classifier.
    pub fn title_to_scene_name(&self) -> (map: &TitleMap)
        requires
            self.wf(),
        ensures
            map.wf(),
            map@ == self@.classifier,
    {
        &self.title_to_scene_name
    }

    /// The interning table and the transition graph.
    pub fn scene_nums(&self) -> (table: &SceneNums)
        requires
            self.wf(),
        ensures
            table.wf(),
            table.names() == self@.names,
            table.edges() == self@.edges,
    {
        &self.scene_nums
    }

    /// The focus history.
    pub fn prev_title(&self) -> (history: &PrevTitle)
        ensures
            history@ == (self@.cur_title, self@.prev_title),
    {
        &self.prev_title
    }

    /// The stage the engine is in.
    pub fn stage(&self) -> (stage: Stage)
        ensures
            stage == self@.stage,
    {
        self.stage
    }

    /// Handles the focus event for the window titled `dst_title`: records the
    /// title in the history and looks for the first classifier entry that
    /// matches it.
    ///
    /// The engine must have finished the title before: events are processed
    /// one at a time, in the order in which they arrive.
    pub fn handle_title(&mut self, dst_title: &String) -> (step: Step)
        requires
            old(self).wf(),
            !awaiting(old(self)@.stage),
        ensures
            final(self).wf(),
            (final(self)@, step) == on_title(old(self)@, dst_title@),
    {
        match self.stage {
            Stage::Stopped => Step::Halt,
            _ => {
                self.prev_title.observe(dst_title.as_str());
                self.stage = Stage::Idle;
                self.advance(0)
            },
        }
    }

    /// Handles one event of the queue: a title as `handle_title` does, a
    /// shutdown by stopping the engine, after which it takes no further event.
    pub fn handle_action(&mut self, action: Action) -> (step: Step)
        requires
            old(self).wf(),
            !awaiting(old(self)@.stage),
        ensures
            final(self).wf(),
            (final(self)@, step) == on_action(old(self)@, action),
    {
        match action {
            Action::Title(title) => self.handle_title(&title),
            Action::Exit => {
                self.stage = Stage::Stopped;
                Step::Halt
            },
        }
    }

    /// Decides on the candidate at position `i` with the host's scenes at hand.
    fn decide_candidate(&mut self, i: usize, scenes: &LiveScenes, current: usize) -> (step: Step)
        requires
            old(self).wf(),
            old(self)@.stage == Stage::Candidate(i),
            on_candidate(old(self)@, i as int, scenes@, current).0.names.len() <= MAX_SCENES,
        ensures
            final(self).wf(),
            (final(self)@, step) == on_candidate(old(self)@, i as int, scenes@, current),
    {
        let dst_name = self.title_to_scene_name.scene_name(i);
        let dst_scene = match scenes.scene_by_name(dst_name.as_str()) {
            Some(dst_scene) => dst_scene,
            None => {
                return self.advance(i + 1);
            },
        };
        let src_name = match scenes.name_by_scene(current) {
            Some(src_name) => src_name,
            None => {
                return self.advance(i + 1);
            },
        };
        proof {
            lemma_interned_grows(old(self)@.names, src_name@, dst_name@);
        }
        let src_num = self.scene_nums.get_num(src_name.as_str());
        let dst_num = self.scene_nums.get_num(dst_name.as_str());
        proof {
            lemma_num_of(self@.names, src_name@, src_num - 1);
        }
        if self.scene_nums.has_transition(src_num, dst_num) {
            self.stage = Stage::Idle;
            return Step::Activate(dst_scene);
        }
        self.advance(i + 1)
    }

    /// Enters the gateway with the host's scenes at hand.
    fn decide_gateway(&mut self, scenes: &LiveScenes, current: usize) -> (step: Step)
        requires
            old(self).wf(),
            old(self)@.stage == Stage::Gateway,
            on_gateway(old(self)@, scenes@, current).0.names.len() <= MAX_SCENES,
        ensures
            final(self).wf(),
            (final(self)@, step) == on_gateway(old(self)@, scenes@, current),
    {
        let step = match scenes.scene_by_name(SCENE_STREAMRAIDERS) {
            Some(dst_scene) => Step::Activate(dst_scene),
            None => Step::Wait,
        };
        self.stage = Stage::Idle;
        match scenes.name_by_scene(current) {
            Some(src_name) => {
                proof {
                    lemma_interned_grows(old(self)@.names, src_name@, SCENE_STREAMRAIDERS@);
                }
                self.title_to_scene_name.insert(self.prev_title.prev_title.clone(), src_name.clone());
                let whatever_num = self.scene_nums.get_num(src_name.as_str());
                let raiders_num = self.scene_nums.get_num(SCENE_STREAMRAIDERS);
                proof {
                    lemma_num_of(self@.names, src_name@, whatever_num - 1);
                }
                self.scene_nums.add_transition(raiders_num, whatever_num);
            },
            None => {},
        }
        step
    }

    /// Handles the host's answer to a `Query`: `scenes` are the scenes it
    /// offers now, `current` is the handle of its active scene.
    ///
    /// The decision interns up to two scene names, so their identifiers must
    /// still fit; `lemma_room_for_two` shows that two free identifiers are
    /// always enough.
    pub fn handle_scenes(&mut self, scenes: &LiveScenes, current: usize) -> (step: Step)
        requires
            old(self).wf(),
            on_scenes(old(self)@, scenes@, current).0.names.len() <= MAX_SCENES,
        ensures
            final(self).wf(),
            (final(self)@, step) == on_scenes(old(self)@, scenes@, current),
    {
        match self.stage {
            Stage::Idle => Step::Wait,
            Stage::Candidate(i) => self.decide_candidate(i, scenes, current),
            Stage::Gateway => self.decide_gateway(scenes, current),
            Stage::Stopped => Step::Halt,
        }
    }

    /// Moves the current title on to the first stage that the classifier
    /// entries from `from` on leave it.
    fn advance(&mut self, from: usize) -> (step: Step)
        requires
            old(self).wf(),
        ensures
            final(self).wf(),
            final(self)@ == (EngineView {
                stage: stage_from(old(self)@.classifier, old(self)@.cur_title, from as int),
                ..old(self)@
            }),
            step == step_for(final(self)@.stage),
    {
        let title = self.prev_title.cur_title.as_str();
        match self.title_to_scene_name.next_match(title, from) {
            Some(i) => {
                proof {
                    lemma_first_match(self@.classifier, self@.cur_title, from as int);
                }
                self.stage = Stage::Candidate(i);
                Step::Query
            },
            None => {
                if title_contains(title, TITLE_STREAMRAIDERS) {
                    self.stage = Stage::Gateway;
                    Step::Query
                } else {
                    self.stage = Stage::Idle;
                    Step::Wait
                }
            },
        }
    }
}

/// The first match from `from` on, where there is one, is an entry at or
/// after `from` whose pattern occurs in the title.
pub proof fn lemma_first_match(classifier: Seq<(Seq<char>, Seq<char>)>, title: Seq<char>, from: int)
    ensures
        first_match(classifier, title, from) matches Some(i) ==> from <= i < classifier.len()
            && occurs_in(classifier[i].0, title),
    decreases classifier.len() - from,
{
    if 0 <= from < classifier.len() && !occurs_in(classifier[from].0, title) {
        lemma_first_match(classifier, title, from + 1);
    }
}

/// Two lookups in a row make a table no shorter at either step.
pub proof fn lemma_interned_grows(names: Seq<Seq<char>>, a: Seq<char>, b: Seq<char>)
    ensures
        names.len() <= interned(names, a).len() <= interned(interned(names, a), b).len() <= names.len() + 2,
{
}

/// An engine with two free identifiers has room for whatever the host answers.
pub proof fn lemma_room_for_two(v: EngineView, scenes: Seq<(Seq<char>, usize)>, current: usize)
    requires
        v.names.len() + 2 <= MAX_SCENES,
    ensures
        on_scenes(v, scenes, current).0.names.len() <= MAX_SCENES,
{
}

/// Skip on a missing scene: a candidate whose destination scene is not live,
/// or whose source cannot be named because the active scene is not among the
/// live ones, is passed over. Nothing is activated and nothing is learned; the
/// title goes on to a later candidate, to the gateway stage, or is finished.
pub proof fn missing_scene_is_skipped(v: EngineView, i: usize, scenes: Seq<(Seq<char>, usize)>, current: usize)
    requires
        valid(v),
        v.stage == Stage::Candidate(i),
        scene_named(scenes, v.classifier[i as int].1) is None || name_of_scene(scenes, current) is None,
    ensures
        on_scenes(v, scenes, current) == candidate_skipped(v, i as int),
        !(on_scenes(v, scenes, current).1 is Activate),
        match on_scenes(v, scenes, current).0.stage {
            Stage::Candidate(j) => i < j < v.classifier.len(),
            Stage::Gateway => true,
            Stage::Idle => true,
            Stage::Stopped => false,
        },
{
    lemma_first_match(v.classifier, v.cur_title, i + 1);
}

/// The engine says `Query` exactly when it is left waiting for the host's
/// scenes. With any other step the event is done with, and only then does
/// `handle_title` take the next one: events are processed one at a time.
pub proof fn query_means_awaiting(v: EngineView, action: Action, scenes: Seq<(Seq<char>, usize)>, current: usize)
    requires
        valid(v),
    ensures
        awaiting(on_action(v, action).0.stage) <==> on_action(v, action).1 is Query,
        awaiting(on_scenes(v, scenes, current).0.stage) <==> on_scenes(v, scenes, current).1 is Query,
{
}

/// Every answer of the host brings the title nearer to its end: a candidate
/// is followed by a later candidate, by the gateway stage or by the end, the
/// gateway stage by the end. So a title is done with after at most one query
/// for each classifier entry and one for the gateway.
pub proof fn answers_move_forward(v: EngineView, scenes: Seq<(Seq<char>, usize)>, current: usize)
    requires
        valid(v),
        awaiting(v.stage),
    ensures
        match (v.stage, on_scenes(v, scenes, current).0.stage) {
            (Stage::Candidate(i), Stage::Candidate(j)) => i < j < v.classifier.len(),
            (Stage::Candidate(_), Stage::Gateway) => true,
            (_, Stage::Idle) => true,
            _ => false,
        },
{
    if let Stage::Candidate(i) = v.stage {
        lemma_first_match(v.classifier, v.cur_title, i + 1);
    }
}

/// Shutdown is final: `Exit` stops the engine, and a stopped engine answers
/// every later event and every later snapshot with `Halt` and changes nothing.
pub proof fn shutdown_is_final(v: EngineView, later: Action, scenes: Seq<(Seq<char>, usize)>, current: usize)
    ensures
        on_action(v, Action::Exit).1 == Step::Halt,
        on_action(v, Action::Exit).0.stage == Stage::Stopped,
        on_action(on_action(v, Action::Exit).0, later) == (on_action(v, Action::Exit).0, Step::Halt),
        on_scenes(on_action(v, Action::Exit).0, scenes, current) == (
            on_action(v, Action::Exit).0,
            Step::Halt,
        ),
{
}

/// Learning: when the gateway is entered while the active scene is live, the
/// title seen just before the gateway's leads to that scene from then on, and
/// the graph permits the way back from the gateway's scene to it.
pub proof fn gateway_learns_the_way_back(
    v: EngineView,
    scenes: Seq<(Seq<char>, usize)>,
    current: usize,
    src_name: Seq<char>,
)
    requires
        valid(v),
        v.stage == Stage::Gateway,
        name_of_scene(scenes, current) == Some(src_name),
        on_scenes(v, scenes, current).0.names.len() <= MAX_SCENES,
    ensures
        scene_for(on_scenes(v, scenes, current).0.classifier, v.prev_title) == Some(src_name),
        src_name != SCENE_STREAMRAIDERS@ ==> on_scenes(v, scenes, current).0.edges.contains(
            (
                num_of(on_scenes(v, scenes, current).0.names, SCENE_STREAMRAIDERS@) as u16,
                num_of(on_scenes(v, scenes, current).0.names, src_name) as u16,
            ),
        ),
        on_scenes(v, scenes, current).0.cur_title == v.cur_title,
        on_scenes(v, scenes, current).0.prev_title == v.prev_title,
{
    let after = on_scenes(v, scenes, current).0;
    let before = patterns(v.classifier);
    if before.contains(v.prev_title) {
        let k = before.index_of(v.prev_title);
        assert(patterns(after.classifier) =~= before);
    } else {
        let k = v.classifier.len() as int;
        assert(patterns(after.classifier) =~= before.push(v.prev_title));
        assert(patterns(after.classifier)[k] == v.prev_title);
    }
    let names = after.names;
    let raiders = num_of(names, SCENE_STREAMRAIDERS@) as u16;
    let whatever = num_of(names, src_name) as u16;
    if src_name != SCENE_STREAMRAIDERS@ {
        lemma_interned_holds(v.names, src_name);
        lemma_interned_holds(interned(v.names, src_name), SCENE_STREAMRAIDERS@);
        lemma_num_of_holds(names, src_name);
        lemma_num_of_holds(names, SCENE_STREAMRAIDERS@);
        if !v.edges.contains((raiders, whatever)) {
            assert(v.edges.push((raiders, whatever))[v.edges.len() as int] == (raiders, whatever));
        } else {
            assert(after.edges == v.edges);
        }
    }
}

} // verus!
