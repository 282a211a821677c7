//! The mathematical model of the engine: an abstract state, the meaning of
//! each operation as a function on that state, and the laws the engine
//! keeps. The executable controller promises in its contracts to follow
//! these functions exactly.

use vstd::prelude::*;

use crate::effects::{Effect, ElementId, InteractionEvent, InteractionKind, VisualStyle};
use crate::history::{pushed_one, HISTORY_CAPACITY};
use crate::registry::{resolve_in, RegistryModel};
use crate::screen::{route_of_tag, ActionRoute, ActionTag, ScreenId};

verus! {

/// Abstract state of the whole engine at a tick boundary.
#[verifier::ext_equal]
pub struct StateModel {
    /// The immutable label-to-tag tables.
    pub reg: RegistryModel,
    /// The screen whose UI is live.
    pub current: ScreenId,
    /// A transition requested but not yet applied.
    pub pending: Option<ScreenId>,
    /// Screens that were left, oldest first, at most [`HISTORY_CAPACITY`].
    pub history: Seq<ScreenId>,
    /// The UI elements that exist right now.
    pub live: Seq<ElementId>,
    /// Interaction edges reported since the last tick, oldest first.
    pub queued: Seq<InteractionEvent>,
    /// How many times the menu music was started (it plays only while 0).
    pub music_plays: u32,
}

/// The elements a screen's setup creates: one per registry entry, in
/// on-screen order.
pub open spec fn live_elements(screen: ScreenId, n: nat) -> Seq<ElementId> {
    Seq::new(n, |i: int| ElementId { screen, entry: i as usize })
}

/// The engine invariant: the registry keeps its tag-uniqueness invariant,
/// exactly the current screen's elements are live, and the history is in
/// bound.
pub open spec fn state_inv(s: StateModel) -> bool {
    &&& s.reg.wf()
    &&& s.live == live_elements(s.current, s.reg.def_of(s.current).len())
    &&& s.history.len() <= HISTORY_CAPACITY as int
}

/// A transition request only records the target; the last request before a
/// tick wins.
pub open spec fn requested(s: StateModel, target: ScreenId) -> StateModel {
    StateModel { pending: Some(target), ..s }
}

/// Reporting an event only queues it.
pub open spec fn noted(s: StateModel, e: InteractionEvent) -> StateModel {
    StateModel { queued: s.queued.push(e), ..s }
}

/// Whether applying a pending transition to `target` starts the music:
/// only on entering the main menu for the first time.
pub open spec fn plays_music(s: StateModel, target: ScreenId) -> bool {
    target == ScreenId::MainMenu && s.music_plays == 0
}

/// The state after applying a pending transition: the outgoing screen's
/// exit work pushes it onto the history and destroys its elements, then the
/// target becomes current, then the target's enter work builds its elements
/// (and, entering the playable scene, clears the history). Without a
/// pending transition nothing changes.
pub open spec fn apply_state(s: StateModel) -> StateModel {
    match s.pending {
        Option::None => s,
        Option::Some(target) => StateModel {
            reg: s.reg,
            current: target,
            pending: Option::None,
            history: if target == ScreenId::InGame {
                Seq::empty()
            } else {
                pushed_one(s.history, s.current)
            },
            live: live_elements(target, s.reg.def_of(target).len()),
            queued: s.queued,
            music_plays: if plays_music(s, target) {
                (s.music_plays + 1) as u32
            } else {
                s.music_plays
            },
        },
    }
}

/// The teardown effects of the outgoing screen: destroy each live element,
/// in order.
pub open spec fn despawn_effects(live: Seq<ElementId>) -> Seq<Effect> {
    live.map_values(|e: ElementId| Effect::Despawn { element: e })
}

/// The setup effects of the incoming screen: create each element in
/// on-screen order, then start the music if it is owed.
pub open spec fn enter_effects(screen: ScreenId, n: nat, music: bool) -> Seq<Effect> {
    seq![Effect::Entered { screen }] + Seq::new(
        n,
        |i: int| Effect::Spawn { element: ElementId { screen, entry: i as usize } },
    ) + if music {
        seq![Effect::PlayMusic]
    } else {
        Seq::empty()
    }
}

/// The effects of applying a pending transition: all of the outgoing
/// screen's teardown strictly before any of the incoming screen's setup.
pub open spec fn apply_effects(s: StateModel) -> Seq<Effect> {
    match s.pending {
        Option::None => Seq::empty(),
        Option::Some(target) => despawn_effects(s.live) + seq![
            Effect::Exited { screen: s.current },
        ] + enter_effects(target, s.reg.def_of(target).len(), plays_music(s, target)),
    }
}

/// Routing of a resolved action: screen-opening tags request a transition;
/// back-navigation pops the history and requests what it finds, or requests
/// the main menu and reports the empty history; quitting is signalled to
/// the host; everything else is log-only. No branch changes the current
/// screen itself.
pub open spec fn action_step(s: StateModel, tag: ActionTag) -> (StateModel, Seq<Effect>) {
    match route_of_tag(tag) {
        ActionRoute::Transition(target) => (requested(s, target), Seq::empty()),
        ActionRoute::Exit => (s, seq![Effect::RequestExit]),
        ActionRoute::Back => if s.history.len() > 0 {
            (
                StateModel {
                    pending: Some(s.history.last()),
                    history: s.history.drop_last(),
                    ..s
                },
                Seq::empty(),
            )
        } else {
            (requested(s, ScreenId::MainMenu), seq![Effect::LogEmptyHistory])
        },
        ActionRoute::LogOnly => (s, seq![Effect::LogIgnored]),
    }
}

/// The label the element renders: that of its registry entry.
pub open spec fn label_of(s: StateModel, element: ElementId) -> Seq<char> {
    s.reg.def_of(element.screen)[element.entry as int].label
}

/// Dispatch of one reported edge. Events on elements that are no longer
/// live are dropped: a despawned element is never acted on. Hover edges
/// only restyle. A press restyles, plays the feedback cue, resolves the
/// element's label through the registry and routes the tag.
pub open spec fn dispatch_one(s: StateModel, e: InteractionEvent) -> (StateModel, Seq<Effect>) {
    if !s.live.contains(e.element) {
        (s, Seq::empty())
    } else {
        match e.kind {
            InteractionKind::HoverEnter => (
                s,
                seq![Effect::SetStyle { element: e.element, style: VisualStyle::Hovered }],
            ),
            InteractionKind::HoverExit => (
                s,
                seq![Effect::SetStyle { element: e.element, style: VisualStyle::Normal }],
            ),
            InteractionKind::Press => {
                let tag = resolve_in(s.reg.def_of(e.element.screen), label_of(s, e.element));
                let stepped = action_step(s, tag);
                (
                    stepped.0,
                    seq![
                        Effect::SetStyle { element: e.element, style: VisualStyle::Pressed },
                        Effect::PlayClick,
                    ] + stepped.1,
                )
            },
        }
    }
}

/// Dispatch of a queue of edges, oldest first.
pub open spec fn dispatch_all(s: StateModel, evts: Seq<InteractionEvent>) -> (
    StateModel,
    Seq<Effect>,
)
    decreases evts.len(),
{
    if evts.len() == 0 {
        (s, Seq::empty())
    } else {
        let first = dispatch_one(s, evts[0]);
        let rest = dispatch_all(first.0, evts.drop_first());
        (rest.0, first.1 + rest.1)
    }
}

/// One frame: apply the pending transition, if any, then dispatch every
/// event reported since the previous tick, draining the queue.
pub open spec fn tick_step(s: StateModel) -> (StateModel, Seq<Effect>) {
    let applied = StateModel { queued: Seq::empty(), ..apply_state(s) };
    let dispatched = dispatch_all(applied, s.queued);
    (dispatched.0, apply_effects(s) + dispatched.1)
}

/// The state right after startup: the main menu is active, its elements
/// are live, nothing is pending or recorded, and the music has started.
pub open spec fn init_state(reg: RegistryModel) -> StateModel {
    StateModel {
        reg,
        current: ScreenId::MainMenu,
        pending: Option::None,
        history: Seq::empty(),
        live: live_elements(ScreenId::MainMenu, reg.main.len()),
        queued: Seq::empty(),
        music_plays: 1,
    }
}

/// The startup effects: the main menu's setup, music included.
pub open spec fn init_effects(reg: RegistryModel) -> Seq<Effect> {
    enter_effects(ScreenId::MainMenu, reg.main.len(), true)
}

/// An element is among a screen's elements exactly when it names that
/// screen and an entry index below the screen's entry count.
pub proof fn lemma_live_elements_contains(screen: ScreenId, n: nat, el: ElementId)
    requires
        n <= usize::MAX,
    ensures
        live_elements(screen, n).contains(el) <==> (el.screen == screen && (el.entry as int)
            < n),
{
    if el.screen == screen && (el.entry as int) < n {
        assert(live_elements(screen, n)[el.entry as int] == el);
    }
    if live_elements(screen, n).contains(el) {
        let i = choose|i: int|
            0 <= i < live_elements(screen, n).len() && live_elements(screen, n)[i] == el;
        assert(el.entry == i as usize);
    }
}

/// Single-active-screen law: under the engine invariant, any two live UI
/// elements belong to the same screen — at most one screen's elements exist
/// at any point observed between ticks.
pub proof fn lemma_single_active_screen(s: StateModel)
    requires
        state_inv(s),
    ensures
        forall|i: int, j: int|
            0 <= i < s.live.len() && 0 <= j < s.live.len() ==> s.live[i].screen
                == s.live[j].screen,
{
}

/// Transition-ordering law: for every applied transition there is exactly
/// one exit marker and exactly one enter marker, the exit marker precedes
/// the enter marker, every element of the outgoing screen is despawned
/// before them, and every element of the incoming screen is spawned after
/// them.
pub proof fn lemma_exit_before_enter(s: StateModel, target: ScreenId)
    requires
        s.pending == Some(target),
    ensures
        ({
            let effs = apply_effects(s);
            let exit_at = s.live.len() as int;
            &&& effs[exit_at] == (Effect::Exited { screen: s.current })
            &&& effs[exit_at + 1] == (Effect::Entered { screen: target })
            &&& forall|x: int|
                0 <= x < effs.len() && effs[x] is Exited ==> x == exit_at
            &&& forall|x: int|
                0 <= x < effs.len() && effs[x] is Entered ==> x == exit_at + 1
            &&& forall|x: int|
                0 <= x < effs.len() && effs[x] is Despawn ==> x < exit_at
            &&& forall|x: int|
                0 <= x < effs.len() && effs[x] is Spawn ==> x > exit_at + 1
        }),
{
    let effs = apply_effects(s);
    let exit_at = s.live.len() as int;
    assert forall|x: int| 0 <= x < effs.len() && effs[x] is Exited implies x == exit_at by {
        if x != exit_at {
            assert(!(effs[x] is Exited));
        }
    }
    assert forall|x: int| 0 <= x < effs.len() && effs[x] is Entered implies x == exit_at + 1 by {
        if x != exit_at + 1 {
            assert(!(effs[x] is Entered));
        }
    }
    assert forall|x: int| 0 <= x < effs.len() && effs[x] is Despawn implies x < exit_at by {
        if x >= exit_at {
            assert(!(effs[x] is Despawn));
        }
    }
    assert forall|x: int| 0 <= x < effs.len() && effs[x] is Spawn implies x > exit_at + 1 by {
        if x < exit_at {
            assert(effs[x] is Despawn);
        }
    }
}

/// Idempotent-repeat-request law: requesting the same target twice before
/// the next tick leaves exactly the state one request leaves.
pub proof fn lemma_repeat_request(s: StateModel, target: ScreenId)
    ensures
        requested(requested(s, target), target) == requested(s, target),
{
}

/// Clear-on-enter-gameplay law: applying a transition into the playable
/// scene always leaves the history empty, whatever its depth was.
pub proof fn lemma_enter_gameplay_clears(s: StateModel)
    requires
        s.pending == Some(ScreenId::InGame),
    ensures
        apply_state(s).history == Seq::<ScreenId>::empty(),
{
}

/// An effect that creates or destroys UI or marks a screen change.
pub open spec fn is_lifecycle(e: Effect) -> bool {
    ||| e is Despawn
    ||| e is Spawn
    ||| e is Exited
    ||| e is Entered
}

/// Dispatching a queue of events emits no lifecycle effect: teardown and
/// setup happen at the apply point alone, so within one tick's effect
/// stream every lifecycle effect sits in the apply prefix, where the
/// exit-before-enter ordering holds.
pub proof fn lemma_dispatch_only_feedback(s: StateModel, evts: Seq<InteractionEvent>)
    ensures
        forall|k: int|
            0 <= k < dispatch_all(s, evts).1.len() ==> !is_lifecycle(
                #[trigger] dispatch_all(s, evts).1[k],
            ),
    decreases evts.len(),
{
    if evts.len() > 0 {
        let first = dispatch_one(s, evts[0]);
        let rest = dispatch_all(first.0, evts.drop_first());
        assert(forall|k: int|
            0 <= k < first.1.len() ==> !is_lifecycle(#[trigger] first.1[k]));
        lemma_dispatch_only_feedback(first.0, evts.drop_first());
        assert forall|k: int|
            0 <= k < dispatch_all(s, evts).1.len() implies !is_lifecycle(
            dispatch_all(s, evts).1[k],
        ) by {
            if k < first.1.len() {
                assert(dispatch_all(s, evts).1[k] == first.1[k]);
            } else {
                assert(dispatch_all(s, evts).1[k] == rest.1[k - first.1.len()]);
            }
        }
    }
}

/// Dispatch never changes the active screen, its live elements, or the
/// registry: it only requests, so the next tick's apply point stays the
/// only place the active screen changes.
pub proof fn lemma_dispatch_preserves_screen(s: StateModel, e: InteractionEvent)
    ensures
        dispatch_one(s, e).0.current == s.current,
        dispatch_one(s, e).0.live == s.live,
        dispatch_one(s, e).0.reg == s.reg,
        dispatch_one(s, e).0.queued == s.queued,
        dispatch_one(s, e).0.history.len() <= s.history.len(),
{
}

/// The queue-dispatch law lifted over a whole queue of events.
pub proof fn lemma_dispatch_all_preserves_screen(s: StateModel, evts: Seq<InteractionEvent>)
    ensures
        dispatch_all(s, evts).0.current == s.current,
        dispatch_all(s, evts).0.live == s.live,
        dispatch_all(s, evts).0.reg == s.reg,
        dispatch_all(s, evts).0.queued == s.queued,
        dispatch_all(s, evts).0.history.len() <= s.history.len(),
    decreases evts.len(),
{
    if evts.len() > 0 {
        lemma_dispatch_preserves_screen(s, evts[0]);
        lemma_dispatch_all_preserves_screen(dispatch_one(s, evts[0]).0, evts.drop_first());
    }
}

/// Applying a transition keeps the engine invariant.
pub proof fn lemma_apply_preserves_inv(s: StateModel)
    requires
        state_inv(s),
    ensures
        state_inv(apply_state(s)),
{
}

/// Dispatching keeps the engine invariant.
pub proof fn lemma_dispatch_all_preserves_inv(s: StateModel, evts: Seq<InteractionEvent>)
    requires
        state_inv(s),
    ensures
        state_inv(dispatch_all(s, evts).0),
    decreases evts.len(),
{
    if evts.len() > 0 {
        lemma_dispatch_preserves_screen(s, evts[0]);
        lemma_dispatch_all_preserves_inv(dispatch_one(s, evts[0]).0, evts.drop_first());
    }
}

/// Within one tick's effect stream, the apply prefix is exactly the
/// transition's effects and everything after it is feedback only: the
/// apply point is the one source of lifecycle effects.
pub proof fn lemma_tick_lifecycle_at_apply_only(s: StateModel)
    ensures
        tick_step(s).1.subrange(0, apply_effects(s).len() as int) == apply_effects(s),
        forall|k: int|
            apply_effects(s).len() <= k < tick_step(s).1.len() ==> !is_lifecycle(
                #[trigger] tick_step(s).1[k],
            ),
{
    let applied = StateModel { queued: Seq::empty(), ..apply_state(s) };
    lemma_dispatch_only_feedback(applied, s.queued);
    assert(tick_step(s).1.subrange(0, apply_effects(s).len() as int) =~= apply_effects(s));
}

/// One whole tick keeps the engine invariant, and afterwards the active
/// screen is the requested target when a transition was pending, else
/// unchanged — dispatch within the tick cannot move it again.
pub proof fn lemma_tick_screen(s: StateModel)
    requires
        state_inv(s),
    ensures
        state_inv(tick_step(s).0),
        tick_step(s).0.current == match s.pending {
            Option::Some(target) => target,
            Option::None => s.current,
        },
        tick_step(s).0.pending == dispatch_all(
            StateModel { queued: Seq::empty(), ..apply_state(s) },
            s.queued,
        ).0.pending,
{
    let applied = StateModel { queued: Seq::empty(), ..apply_state(s) };
    lemma_apply_preserves_inv(s);
    assert(state_inv(applied));
    lemma_dispatch_all_preserves_inv(applied, s.queued);
    lemma_dispatch_all_preserves_screen(applied, s.queued);
}

} // verus!
