//! The scene lifecycle manager: a registry of named scenes, one current
//! scene driven per tick, and the small command protocol a scene's update
//! step answers with.
//!
//! The manager owns every registered scene; the current scene is an index
//! into that registry, and may be unresolved when a jump named no
//! registered scene — a recoverable but anomalous state the host loop must
//! check before the next tick. Lookup by name is a linear scan returning
//! the first match, so among duplicate names the earliest registration
//! wins.

use vstd::prelude::*;

use crate::elements::covers::MAX_SURFACE_DIM;
use crate::elements::Vector2;

verus! {

/// The host-sampled inputs for one tick: elapsed milliseconds since the
/// previous tick, the pointer position, the pointer-button predicates
/// (held down, and freshly pressed this tick), and the drawable area's
/// dimensions.
#[derive(Clone, Copy, PartialEq, Eq, Structural, Debug)]
pub struct HostFrame {
    pub dt_ms: u32,
    pub pointer: Vector2,
    pub mouse_down: bool,
    pub mouse_pressed: bool,
    pub screen: Vector2,
}

impl HostFrame {
    /// The pointer lies in the coordinate space and the screen dimensions
    /// are plausible surface dimensions.
    pub open spec fn wf(self) -> bool {
        &&& self.pointer.in_range()
        &&& 0 <= self.screen.x <= MAX_SURFACE_DIM
        &&& 0 <= self.screen.y <= MAX_SURFACE_DIM
    }
}

/// The closed command set of the scene protocol.
enum Command {
    Exit,
    JumpToNamedScene,
    Stay,
}

/// The spec-level value of a scene command: what it asks the manager to
/// do, with a jump's target name as a character sequence.
pub enum CommandView {
    Stay,
    Exit,
    JumpTo(Seq<char>),
}

/// A command a scene's update step hands back to the manager: stay on the
/// current scene, jump to a named scene, or exit the application loop. It
/// carries nothing else.
pub struct SceneCommand {
    command: Command,
    args: Vec<String>,
}

impl View for SceneCommand {
    type V = CommandView;

    closed spec fn view(&self) -> CommandView {
        match self.command {
            Command::Exit => CommandView::Exit,
            Command::Stay => CommandView::Stay,
            Command::JumpToNamedScene => CommandView::JumpTo(self.args[0]@),
        }
    }
}

impl SceneCommand {
    #[verifier::type_invariant]
    spec fn type_inv(self) -> bool {
        self.command == Command::JumpToNamedScene ==> self.args.len() >= 1
    }

    /// True of the command built by [`SceneCommand::exit_program`].
    pub open spec fn is_exit(self) -> bool {
        self@ is Exit
    }

    /// True of the command built by [`SceneCommand::continue_program`].
    pub open spec fn is_stay(self) -> bool {
        self@ is Stay
    }

    /// True of the command built by [`SceneCommand::jump_to_scene`].
    pub open spec fn is_jump(self) -> bool {
        self@ is JumpTo
    }

    /// The name a jump command targets.
    pub open spec fn jump_target(self) -> Seq<char> {
        match self@ {
            CommandView::JumpTo(name) => name,
            _ => Seq::empty(),
        }
    }

    /// A command is of exactly one of the three kinds.
    pub proof fn lemma_one_kind(self)
        ensures
            self.is_exit() ==> !self.is_stay() && !self.is_jump(),
            self.is_stay() ==> !self.is_exit() && !self.is_jump(),
            self.is_jump() ==> !self.is_exit() && !self.is_stay(),
            self.is_exit() || self.is_stay() || self.is_jump(),
    {
    }

    /// The command that switches the current scene to the named entry.
    pub fn jump_to_scene(scene_name: &str) -> (c: SceneCommand)
        ensures
            c@ == CommandView::JumpTo(scene_name@),
    {
        SceneCommand { command: Command::JumpToNamedScene, args: vec![scene_name.to_owned()] }
    }

    /// The command that keeps the current scene running.
    pub fn continue_program() -> (c: SceneCommand)
        ensures
            c@ == CommandView::Stay,
    {
        SceneCommand { command: Command::Stay, args: vec![] }
    }

    /// The command that ends the application loop.
    pub fn exit_program() -> (c: SceneCommand)
        ensures
            c@ == CommandView::Exit,
    {
        SceneCommand { command: Command::Exit, args: vec![] }
    }
}

/// The capability set a scene offers the manager. `update` is the one
/// operation invoked every tick, and only ever on the current scene; it
/// answers with the scene's command for the manager. The manager itself
/// never calls `load` or `unload`: running those at the right moments is
/// deliberately left to the host. A scene's name identifies it in the
/// registry and must stay stable across all four operations.
pub trait AsScene: Sized {
    /// The scene's internal well-formedness, preserved by every operation.
    spec fn inv(&self) -> bool;

    /// The scene's stable identifying name.
    spec fn spec_name(&self) -> Seq<char>;

    /// The command one update answers from this state under this host
    /// frame. Through this, the manager's dispatch contract can follow a
    /// jump chain from the scenes' pre-tick states alone.
    spec fn spec_reply(self, host: HostFrame) -> CommandView;

    /// How one update changes the scene: `after` is a possible post-update
    /// state for a scene in this state under this host frame.
    spec fn spec_step(self, host: HostFrame, after: Self) -> bool;

    /// The name used as the registry lookup key.
    fn name(&self) -> (r: String)
        requires
            self.inv(),
        ensures
            r@ == self.spec_name(),
    ;

    /// One-time setup.
    fn load(&mut self, host: &HostFrame)
        requires
            old(self).inv(),
            host.wf(),
        ensures
            final(self).inv(),
            final(self).spec_name() == old(self).spec_name(),
    ;

    /// One tick of the scene, answering with a command for the manager.
    fn update(&mut self, host: &HostFrame) -> (cmd: SceneCommand)
        requires
            old(self).inv(),
            host.wf(),
        ensures
            final(self).inv(),
            final(self).spec_name() == old(self).spec_name(),
            cmd@ == old(self).spec_reply(*host),
            old(self).spec_step(*host, *final(self)),
    ;

    /// Teardown.
    fn unload(&mut self, host: &HostFrame)
        requires
            old(self).inv(),
            host.wf(),
        ensures
            final(self).inv(),
            final(self).spec_name() == old(self).spec_name(),
    ;
}

/// Why a [`SceneManager::play_scene`] call returned control to the host.
#[derive(Clone, Copy, PartialEq, Eq, Structural, Debug)]
pub enum PlayOutcome {
    /// The tick ended on the same scene it ran: nothing more to do until
    /// the host's next frame.
    Settled,
    /// The current scene returned the exit command; the host loop must
    /// terminate without invoking any further scene.
    Exited,
    /// A jump named no registered scene: the current scene is unresolved
    /// and the host must set one before ticking again.
    Unresolved,
    /// Same-tick re-dispatch was cut off after more jumps than there are
    /// registered scenes: the scenes are jumping in a cycle.
    JumpCycle,
}

/// The index of the first scene with the given name, if any: the spec-level
/// mirror of [`SceneManager::get_scene_by_name`]'s linear scan.
pub open spec fn spec_find_scene<S: AsScene>(scenes: Seq<S>, name: Seq<char>) -> Option<int>
    decreases scenes.len(),
{
    if scenes.len() == 0 {
        None
    } else if scenes[0].spec_name() == name {
        Some(0int)
    } else {
        match spec_find_scene(scenes.drop_first(), name) {
            None => None,
            Some(i) => Some(i + 1),
        }
    }
}

/// [`spec_find_scene`] finds exactly the first match: the returned index
/// bears the name and no earlier one does, and a `None` means no
/// registered scene bears it.
pub proof fn lemma_find_scene_first_match<S: AsScene>(scenes: Seq<S>, name: Seq<char>)
    ensures
        match spec_find_scene(scenes, name) {
            Some(i) => {
                &&& 0 <= i < scenes.len()
                &&& scenes[i].spec_name() == name
                &&& forall|j: int| 0 <= j < i ==> scenes[j].spec_name() != name
            },
            None => forall|j: int| 0 <= j < scenes.len() ==> scenes[j].spec_name() != name,
        },
    decreases scenes.len(),
{
    if scenes.len() > 0 && scenes[0].spec_name() != name {
        let rest = scenes.drop_first();
        lemma_find_scene_first_match(rest, name);
        match spec_find_scene(rest, name) {
            Some(i) => {
                assert(scenes[i + 1] == rest[i]);
                assert forall|j: int| 0 <= j < i + 1 implies scenes[j].spec_name() != name by {
                    if j > 0 {
                        assert(scenes[j] == rest[j - 1]);
                    }
                }
            },
            None => {
                assert forall|j: int|
                    0 <= j < scenes.len() implies scenes[j].spec_name() != name by {
                    if j > 0 {
                        assert(scenes[j] == rest[j - 1]);
                    }
                }
            },
        }
    }
}

/// How a same-tick dispatch chain ends, as far as the scenes' pre-tick
/// states predict it: the index the manager settles on or exits from, or
/// the unresolved jump, each with the set of registry indices driven along
/// the way. Once the chain would drive a scene a second time, its replies
/// depend on mid-tick state and the prediction ends.
pub enum DispatchEnd {
    Settles(int, Set<int>),
    Exits(int, Set<int>),
    Unresolved(Set<int>),
    Unpredicted,
}

/// The same-tick dispatch chain followed from `current` through the
/// registry, over the scenes' pre-tick replies ([`AsScene::spec_reply`]):
/// a stay (or a jump that lands on the current scene's own name) settles
/// the tick, an exit ends the host loop, a jump to an unknown name leaves
/// the current scene unresolved, and any other jump re-dispatches to the
/// first scene bearing the target name. `driven` collects the indices
/// driven so far; a jump back into it — or exhausted fuel, which a
/// revisit-free chain never reaches — ends the prediction.
pub open spec fn spec_dispatch_chain<S: AsScene>(
    scenes: Seq<S>,
    host: HostFrame,
    current: int,
    driven: Set<int>,
    fuel: nat,
) -> DispatchEnd
    decreases fuel,
{
    if fuel == 0 {
        DispatchEnd::Unpredicted
    } else {
        match scenes[current].spec_reply(host) {
            CommandView::Exit => DispatchEnd::Exits(current, driven.insert(current)),
            CommandView::Stay => DispatchEnd::Settles(current, driven.insert(current)),
            CommandView::JumpTo(name) => match spec_find_scene(scenes, name) {
                None => DispatchEnd::Unresolved(driven.insert(current)),
                Some(target) => if scenes[target].spec_name() == scenes[current].spec_name() {
                    DispatchEnd::Settles(target, driven.insert(current))
                } else if driven.insert(current).contains(target) {
                    DispatchEnd::Unpredicted
                } else {
                    spec_dispatch_chain(
                        scenes,
                        host,
                        target,
                        driven.insert(current),
                        (fuel - 1) as nat,
                    )
                },
            },
        }
    }
}

/// What one tick did to the registry: every scene in `driven` was driven
/// by exactly one update step ([`AsScene::spec_step`]), and every other
/// scene was not touched at all.
pub open spec fn spec_chain_effect<S: AsScene>(
    before: Seq<S>,
    after: Seq<S>,
    host: HostFrame,
    driven: Set<int>,
) -> bool {
    &&& forall|j: int|
        0 <= j < before.len() && !driven.contains(j) ==> after[j] == before[j]
    &&& forall|j: int|
        0 <= j < before.len() && driven.contains(j) ==> before[j].spec_step(host, after[j])
}

/// The scene registry and the (possibly unresolved) current scene, an
/// index into the registry.
pub struct SceneManager<S: AsScene> {
    pub scene_list: Vec<S>,
    pub current_scene: Option<usize>,
}

impl<S: AsScene> SceneManager<S> {
    /// Every registered scene is well-formed and the current index, when
    /// set, points into the registry.
    pub open spec fn wf(self) -> bool {
        &&& forall|i: int|
            0 <= i < self.scene_list@.len() ==> #[trigger] self.scene_list@[i].inv()
        &&& match self.current_scene {
            Some(i) => (i as int) < self.scene_list@.len(),
            None => true,
        }
    }

    /// A new and empty manager: no scenes, no current scene.
    pub fn new() -> (m: SceneManager<S>)
        ensures
            m.scene_list@.len() == 0,
            m.current_scene is None,
            m.wf(),
    {
        SceneManager { scene_list: Vec::new(), current_scene: None }
    }

    /// Takes ownership of a scene and appends it to the registry. No
    /// duplicate-name check is made: lookup stays first-match-wins.
    pub fn push_scene(&mut self, scene: S)
        requires
            old(self).wf(),
            scene.inv(),
        ensures
            final(self).wf(),
            final(self).scene_list@ == old(self).scene_list@.push(scene),
            final(self).current_scene == old(self).current_scene,
    {
        self.scene_list.push(scene);
    }

    /// Linear first-match lookup by exact name equality: the index of the
    /// first registered scene with the given name, or nothing.
    pub fn get_scene_by_name(&self, scene_name: &str) -> (r: Option<usize>)
        requires
            self.wf(),
        ensures
            match r {
                Some(i) => {
                    &&& (i as int) < self.scene_list@.len()
                    &&& self.scene_list@[i as int].spec_name() == scene_name@
                    &&& forall|j: int|
                        0 <= j < i ==> self.scene_list@[j].spec_name() != scene_name@
                },
                None => forall|j: int|
                    0 <= j < self.scene_list@.len() ==> self.scene_list@[j].spec_name()
                        != scene_name@,
            },
    {
        let target: String = scene_name.to_owned();
        let mut idx: usize = 0;
        while idx < self.scene_list.len()
            invariant
                self.wf(),
                idx <= self.scene_list@.len(),
                target@ == scene_name@,
                forall|j: int| 0 <= j < idx ==> self.scene_list@[j].spec_name() != scene_name@,
            decreases self.scene_list@.len() - idx,
        {
            let candidate = self.scene_list[idx].name();
            if candidate == target {
                return Some(idx);
            }
            idx += 1;
        }
        None
    }

    /// Points the current scene at the first registered scene with the
    /// given name; an unknown name leaves the current scene unresolved.
    pub fn set_current_scene(&mut self, scene_name: &str)
        requires
            old(self).wf(),
        ensures
            final(self).wf(),
            final(self).scene_list == old(self).scene_list,
            match final(self).current_scene {
                Some(i) => {
                    &&& (i as int) < old(self).scene_list@.len()
                    &&& old(self).scene_list@[i as int].spec_name() == scene_name@
                    &&& forall|j: int|
                        0 <= j < i ==> old(self).scene_list@[j].spec_name() != scene_name@
                },
                None => forall|j: int|
                    0 <= j < old(self).scene_list@.len() ==> old(self).scene_list@[j].spec_name()
                        != scene_name@,
            },
    {
        let found = self.get_scene_by_name(scene_name);
        self.current_scene = found;
    }

    /// Interprets one command of the scene protocol: a jump re-points the
    /// current scene (unresolved when the name is unknown), exit reports
    /// `true` to the caller and changes nothing, stay changes nothing.
    pub fn parse_command(&mut self, scene_command: SceneCommand) -> (exit: bool)
        requires
            old(self).wf(),
        ensures
            final(self).wf(),
            final(self).scene_list == old(self).scene_list,
            exit == scene_command.is_exit(),
            !scene_command.is_jump() ==> final(self).current_scene == old(self).current_scene,
            scene_command.is_jump() ==> match final(self).current_scene {
                Some(i) => {
                    &&& (i as int) < old(self).scene_list@.len()
                    &&& old(self).scene_list@[i as int].spec_name() == scene_command.jump_target()
                    &&& forall|j: int|
                        0 <= j < i ==> old(self).scene_list@[j].spec_name()
                            != scene_command.jump_target()
                },
                None => forall|j: int|
                    0 <= j < old(self).scene_list@.len() ==> old(self).scene_list@[j].spec_name()
                        != scene_command.jump_target(),
            },
    {
        proof {
            use_type_invariant(&scene_command);
        }
        match scene_command.command {
            Command::JumpToNamedScene => {
                self.set_current_scene(scene_command.args[0].as_str());
                false
            },
            Command::Exit => true,
            Command::Stay => false,
        }
    }

    /// Drives the current scene for one host frame: runs its update,
    /// interprets the returned command, and — whenever the scene identity
    /// changed — immediately re-runs the newly current scene within the
    /// same frame, so a chain of jumps plays out before control returns to
    /// the host. The re-dispatch is cut off after more jumps than there
    /// are registered scenes, which can only mean the scenes jump in a
    /// cycle. Registered scenes and their names survive the call, and the
    /// current scene is unresolved afterwards exactly when the outcome
    /// says so.
    ///
    /// As far as [`spec_dispatch_chain`] predicts the tick from the
    /// scenes' pre-tick replies, the contract pins the whole dispatch
    /// down: the outcome, where the current scene ends up, that every
    /// scene along the chain was driven by exactly one update, and that no
    /// other scene was touched. In particular, an exit reply ends the tick
    /// with [`PlayOutcome::Exited`] before any further scene runs.
    pub fn play_scene(&mut self, host: &HostFrame) -> (outcome: PlayOutcome)
        requires
            old(self).wf(),
            old(self).current_scene is Some,
            host.wf(),
        ensures
            final(self).wf(),
            final(self).scene_list@.len() == old(self).scene_list@.len(),
            forall|i: int|
                0 <= i < old(self).scene_list@.len()
                    ==> #[trigger] final(self).scene_list@[i].spec_name()
                    == old(self).scene_list@[i].spec_name(),
            (outcome == PlayOutcome::Unresolved) <==> final(self).current_scene is None,
            ({
                let scenes = old(self).scene_list@;
                let start = match old(self).current_scene {
                    Some(i) => i as int,
                    None => 0,
                };
                match spec_dispatch_chain(scenes, *host, start, Set::empty(), (scenes.len()
                    + 1) as nat) {
                    DispatchEnd::Settles(c, driven) => {
                        &&& outcome == PlayOutcome::Settled
                        &&& final(self).current_scene == Some(c as usize)
                        &&& spec_chain_effect(scenes, final(self).scene_list@, *host, driven)
                    },
                    DispatchEnd::Exits(c, driven) => {
                        &&& outcome == PlayOutcome::Exited
                        &&& final(self).current_scene == Some(c as usize)
                        &&& spec_chain_effect(scenes, final(self).scene_list@, *host, driven)
                    },
                    DispatchEnd::Unresolved(driven) => {
                        &&& outcome == PlayOutcome::Unresolved
                        &&& final(self).current_scene is None
                        &&& spec_chain_effect(scenes, final(self).scene_list@, *host, driven)
                    },
                    DispatchEnd::Unpredicted => true,
                }
            }),
    {
        let ghost scenes0 = old(self).scene_list@;
        let ghost start: int = match old(self).current_scene {
            Some(i) => i as int,
            None => 0,
        };
        let ghost top = spec_dispatch_chain(
            scenes0,
            *host,
            start,
            Set::empty(),
            (scenes0.len() + 1) as nat,
        );
        let ghost mut driven: Set<int> = Set::empty();
        let mut fuel = self.scene_list.len();
        loop
            invariant
                self.wf(),
                self.current_scene is Some,
                host.wf(),
                scenes0 == old(self).scene_list@,
                start == (match old(self).current_scene {
                    Some(i) => i as int,
                    None => 0,
                }),
                top == spec_dispatch_chain(
                    scenes0,
                    *host,
                    start,
                    Set::empty(),
                    (scenes0.len() + 1) as nat,
                ),
                self.scene_list@.len() == scenes0.len(),
                forall|i: int|
                    0 <= i < scenes0.len() ==> #[trigger] self.scene_list@[i].spec_name()
                        == scenes0[i].spec_name(),
                driven.finite(),
                forall|j: int| driven.contains(j) ==> 0 <= j < scenes0.len(),
                top is Unpredicted || ({
                    &&& driven.len() + fuel == scenes0.len()
                    &&& match self.current_scene {
                        Some(c) => {
                            &&& !driven.contains(c as int)
                            &&& top == spec_dispatch_chain(
                                scenes0,
                                *host,
                                c as int,
                                driven,
                                (scenes0.len() + 1 - driven.len()) as nat,
                            )
                        },
                        None => false,
                    }
                    &&& spec_chain_effect(scenes0, self.scene_list@, *host, driven)
                }),
            decreases fuel,
        {
            let ghost driven0 = driven;
            let ghost pre_list = self.scene_list@;
            let idx = self.current_scene.unwrap();
            let ghost c: int = idx as int;
            let before_name = self.scene_list[idx].name();
            let scene = &mut self.scene_list[idx];
            let cmd = scene.update(host);
            let ghost mid_list = self.scene_list@;
            let exit = self.parse_command(cmd);
            proof {
                driven = driven0.insert(c);
                vstd::set::axiom_set_insert_len(driven0, c);
                lemma_find_scene_first_match(scenes0, cmd.jump_target());
                // The registry's names still mirror the pre-tick names.
                assert forall|i: int|
                    0 <= i < scenes0.len() implies #[trigger] mid_list[i].spec_name()
                    == scenes0[i].spec_name() by {
                    if i != c {
                        assert(mid_list[i] == pre_list[i]);
                    }
                }
                if !(top is Unpredicted) {
                    // The scene driven this iteration still carried its
                    // pre-tick state, so its reply is the chain's next step.
                    assert(pre_list[c] == scenes0[c]);
                    assert(cmd@ == scenes0[c].spec_reply(*host));
                    assert forall|j: int|
                        0 <= j < scenes0.len() && !driven.contains(j) implies mid_list[j]
                        == scenes0[j] by {
                        assert(mid_list[j] == pre_list[j]);
                    }
                    assert forall|j: int|
                        0 <= j < scenes0.len() && driven.contains(j) implies scenes0[j].spec_step(
                        *host,
                        mid_list[j],
                    ) by {
                        if j != c {
                            assert(mid_list[j] == pre_list[j]);
                        }
                    }
                    assert(spec_chain_effect(scenes0, mid_list, *host, driven));
                    assert(top == spec_dispatch_chain(
                        scenes0,
                        *host,
                        c,
                        driven0,
                        (scenes0.len() + 1 - driven0.len()) as nat,
                    ));
                }
            }
            if exit {
                proof {
                    if !(top is Unpredicted) {
                        assert(top == DispatchEnd::Exits(c, driven));
                    }
                }
                return PlayOutcome::Exited;
            }
            match self.current_scene {
                None => {
                    proof {
                        if !(top is Unpredicted) {
                            // Only a jump can unset the current scene, and
                            // its target name matches no registered scene.
                            assert(cmd.is_jump());
                            let target = cmd.jump_target();
                            match spec_find_scene(scenes0, target) {
                                Some(t) => {
                                    assert(mid_list[t].spec_name() == target);
                                    assert(false);
                                },
                                None => {},
                            }
                            assert(top == DispatchEnd::Unresolved(driven));
                        }
                    }
                    return PlayOutcome::Unresolved;
                },
                Some(new_idx) => {
                    let after_name = self.scene_list[new_idx].name();
                    proof {
                        if !(top is Unpredicted) && cmd@ is JumpTo {
                            // The manager's lookup and the chain's lookup
                            // are both first matches on the same names.
                            let target = cmd.jump_target();
                            match spec_find_scene(scenes0, target) {
                                None => {
                                    assert(scenes0[new_idx as int].spec_name() == target);
                                    assert(false);
                                },
                                Some(t) => {
                                    if t < new_idx as int {
                                        assert(mid_list[t].spec_name() != target);
                                        assert(scenes0[t].spec_name() == target);
                                        assert(false);
                                    }
                                    if t > new_idx as int {
                                        assert(scenes0[new_idx as int].spec_name() != target);
                                        assert(mid_list[new_idx as int].spec_name() == target);
                                        assert(false);
                                    }
                                    assert(t == new_idx as int);
                                },
                            }
                        }
                    }
                    if after_name == before_name {
                        proof {
                            if !(top is Unpredicted) {
                                if cmd@ is JumpTo {
                                    assert(scenes0[new_idx as int].spec_name() == scenes0[c].spec_name());
                                    assert(top == DispatchEnd::Settles(new_idx as int, driven));
                                } else {
                                    assert(new_idx == idx);
                                    assert(top == DispatchEnd::Settles(c, driven));
                                }
                            }
                        }
                        return PlayOutcome::Settled;
                    }
                    proof {
                        if !(top is Unpredicted) {
                            // The names differ, so this was a jump to a
                            // scene not yet driven (a revisit would have
                            // ended the prediction), and the chain follows
                            // it.
                            assert(cmd@ is JumpTo);
                            assert(scenes0[new_idx as int].spec_name() != scenes0[c].spec_name());
                            if !driven.contains(new_idx as int) {
                                assert(top == spec_dispatch_chain(
                                    scenes0,
                                    *host,
                                    new_idx as int,
                                    driven,
                                    (scenes0.len() + 1 - driven.len()) as nat,
                                ));
                            }
                        }
                    }
                },
            }
            if fuel == 0 {
                proof {
                    // A predictable chain never exhausts the fuel: that
                    // would take more distinct driven scenes than the
                    // registry holds.
                    if !(top is Unpredicted) {
                        let indices = vstd::set_lib::set_int_range(0, scenes0.len() as int);
                        vstd::set_lib::lemma_int_range(0, scenes0.len() as int);
                        driven0.lemma_subset_not_in_lt(indices, c);
                        assert(false);
                    }
                }
                return PlayOutcome::JumpCycle;
            }
            fuel -= 1;
        }
    }
}

/// The fixed answer a scripted scene gives on every update.
pub enum ScriptedReply {
    Stay,
    Exit,
    JumpTo(String),
}

/// A canned scene: it answers every update with the same fixed command and
/// counts how often it was driven. Useful for exercising the manager's
/// dispatch, jump chains and exit handling.
pub struct ScriptedScene {
    pub name: String,
    pub reply: ScriptedReply,
    pub updates: usize,
}

impl ScriptedScene {
    /// A scripted scene with the given name and fixed reply, not yet
    /// driven.
    pub fn new(name: &str, reply: ScriptedReply) -> (s: ScriptedScene)
        ensures
            s.name@ == name@,
            s.reply == reply,
            s.updates == 0,
    {
        ScriptedScene { name: name.to_owned(), reply, updates: 0 }
    }
}

impl AsScene for ScriptedScene {
    open spec fn inv(&self) -> bool {
        true
    }

    open spec fn spec_name(&self) -> Seq<char> {
        self.name@
    }

    /// The scripted reply, verbatim.
    open spec fn spec_reply(self, host: HostFrame) -> CommandView {
        match self.reply {
            ScriptedReply::Stay => CommandView::Stay,
            ScriptedReply::Exit => CommandView::Exit,
            ScriptedReply::JumpTo(target) => CommandView::JumpTo(target@),
        }
    }

    /// An update keeps the name and the reply and counts the call,
    /// saturating at the counter's maximum.
    open spec fn spec_step(self, host: HostFrame, after: Self) -> bool {
        &&& after.name == self.name
        &&& after.reply == self.reply
        &&& after.updates == if self.updates < usize::MAX {
            self.updates + 1
        } else {
            self.updates as int
        }
    }

    fn name(&self) -> (r: String) {
        self.name.clone()
    }

    fn load(&mut self, host: &HostFrame)
        ensures
            *final(self) == *old(self),
    {
    }

    /// Hands back the scripted reply and counts the call (saturating).
    fn update(&mut self, host: &HostFrame) -> (cmd: SceneCommand) {
        if self.updates < usize::MAX {
            self.updates = self.updates + 1;
        }
        match &self.reply {
            ScriptedReply::Stay => SceneCommand::continue_program(),
            ScriptedReply::Exit => SceneCommand::exit_program(),
            ScriptedReply::JumpTo(t) => SceneCommand::jump_to_scene(t.as_str()),
        }
    }

    fn unload(&mut self, host: &HostFrame)
        ensures
            *final(self) == *old(self),
    {
    }
}

} // verus!
