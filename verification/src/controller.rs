//! The screen lifecycle controller and interaction dispatcher: the single
//! owner of the active-screen state, the pending transition, the navigation
//! history and the live UI elements. Every contract follows the functions
//! of [`crate::model`] exactly.

use vstd::prelude::*;

use crate::effects::{Effect, ElementId, InteractionEvent, InteractionKind, VisualStyle};
use crate::history::NavigationHistory;
use crate::model::{
    action_step, apply_effects, apply_state, dispatch_all, dispatch_one, init_effects,
    init_state, label_of, lemma_live_elements_contains, lemma_tick_screen, live_elements, noted,
    requested, state_inv, tick_step, StateModel,
};
use crate::registry::ScreenRegistry;
use crate::screen::{route_action, ActionRoute, ActionTag, ScreenId};

verus! {

/// The engine. The host builds one with [`Controller::new`], reports
/// interaction edges with [`Controller::notify_interaction`], and calls
/// [`Controller::tick`] once per frame, performing the returned effects in
/// order. The active screen changes in [`Controller::apply_pending_transition`]
/// and nowhere else.
pub struct Controller {
    registry: ScreenRegistry,
    current: ScreenId,
    pending: Option<ScreenId>,
    history: NavigationHistory,
    live: Vec<ElementId>,
    queued: Vec<InteractionEvent>,
    music_plays: u32,
}

impl View for Controller {
    type V = StateModel;

    closed spec fn view(&self) -> StateModel {
        StateModel {
            reg: self.registry@,
            current: self.current,
            pending: self.pending,
            history: self.history@,
            live: self.live@,
            queued: self.queued@,
            music_plays: self.music_plays,
        }
    }
}

impl Controller {
    /// The engine invariant, kept by every method.
    pub open spec fn wf(&self) -> bool {
        state_inv(self@)
    }

    /// One-time setup: the main menu becomes active and its UI is built.
    /// The returned effects are the main menu's setup, music included.
    pub fn new(registry: ScreenRegistry) -> (r: (Controller, Vec<Effect>))
        requires
            registry@.wf(),
        ensures
            r.0.wf(),
            r.0@ == init_state(registry@),
            r.1@ == init_effects(registry@),
    {
        let mut effects: Vec<Effect> = Vec::new();
        effects.push(Effect::Entered { screen: ScreenId::MainMenu });
        let n = registry.get_definition(ScreenId::MainMenu).len();
        let mut live: Vec<ElementId> = Vec::new();
        for i in 0..n
            invariant
                n == registry@.main.len(),
                live@.len() == i,
                forall|k: int|
                    0 <= k < i ==> live@[k] == (ElementId {
                        screen: ScreenId::MainMenu,
                        entry: k as usize,
                    }),
                effects@.len() == 1 + i,
                effects@[0] == (Effect::Entered { screen: ScreenId::MainMenu }),
                forall|k: int|
                    1 <= k < 1 + i ==> #[trigger] effects@[k] == (Effect::Spawn {
                        element: ElementId { screen: ScreenId::MainMenu, entry: (k - 1) as usize },
                    }),
        {
            live.push(ElementId { screen: ScreenId::MainMenu, entry: i });
            effects.push(Effect::Spawn {
                element: ElementId { screen: ScreenId::MainMenu, entry: i },
            });
        }
        effects.push(Effect::PlayMusic);
        let c = Controller {
            registry,
            current: ScreenId::MainMenu,
            pending: None,
            history: NavigationHistory::new(),
            live,
            queued: Vec::new(),
            music_plays: 1,
        };
        proof {
            assert(c@.live =~= live_elements(ScreenId::MainMenu, c@.reg.main.len()));
            assert(c@ =~= init_state(c@.reg));
            assert(effects@ =~= init_effects(c@.reg));
        }
        (c, effects)
    }

    /// Read-only access to the registry, for hosts that render labels.
    pub fn registry(&self) -> (r: &ScreenRegistry)
        ensures
            r@ == self@.reg,
    {
        &self.registry
    }

    /// The currently active screen.
    pub fn current_screen(&self) -> (r: ScreenId)
        ensures
            r == self@.current,
    {
        self.current
    }

    /// The transition recorded for the next tick, if any.
    pub fn pending_transition(&self) -> (r: Option<ScreenId>)
        ensures
            r == self@.pending,
    {
        self.pending
    }

    /// How many screens the navigation history records.
    pub fn history_len(&self) -> (n: usize)
        ensures
            n == self@.history.len(),
    {
        self.history.len()
    }

    /// Whether the element exists right now.
    pub fn is_live(&self, element: ElementId) -> (r: bool)
        requires
            self.wf(),
        ensures
            r == self@.live.contains(element),
    {
        let n = self.registry.get_definition(self.current).len();
        proof {
            lemma_live_elements_contains(
                self.current,
                self@.reg.def_of(self.current).len(),
                element,
            );
        }
        element.screen == self.current && element.entry < n
    }

    /// Records `target` as the transition to apply at the next tick. Any
    /// target is accepted; validity rules, if desired, belong to the
    /// caller. A later request before the next tick overwrites this one.
    pub fn request_transition(&mut self, target: ScreenId)
        ensures
            final(self)@ == requested(old(self)@, target),
            old(self).wf() ==> final(self).wf(),
    {
        self.pending = Some(target);
        proof {
            assert(self@ =~= requested(old(self)@, target));
        }
    }

    /// Queues one reported interaction edge for the next tick's dispatch.
    /// The host reports only changes, never steady state.
    pub fn notify_interaction(&mut self, element: ElementId, kind: InteractionKind)
        ensures
            final(self)@ == noted(old(self)@, InteractionEvent { element, kind }),
            old(self).wf() ==> final(self).wf(),
    {
        self.queued.push(InteractionEvent { element, kind });
        proof {
            assert(self@ =~= noted(old(self)@, InteractionEvent { element, kind }));
        }
    }

    /// If a transition is pending: runs the outgoing screen's exit work
    /// (record it in the history, destroy its elements), makes the target
    /// current — this is the only place the active screen changes — and
    /// runs the target's enter work (build its elements; entering the
    /// playable scene clears the history; the first entry of the main menu
    /// starts the music). Without a pending transition, a no-op.
    pub fn apply_pending_transition(&mut self) -> (effects: Vec<Effect>)
        requires
            old(self).wf(),
        ensures
            final(self).wf(),
            final(self)@ == apply_state(old(self)@),
            effects@ == apply_effects(old(self)@),
            old(self)@.pending == Some(ScreenId::InGame) ==> final(self)@.history.len() == 0,
    {
        let mut effects: Vec<Effect> = Vec::new();
        match self.pending {
            None => {
                proof {
                    assert(self@ =~= apply_state(old(self)@));
                    assert(effects@ =~= apply_effects(old(self)@));
                }
                effects
            },
            Some(target) => {
                self.pending = None;
                // Exit work of the outgoing screen.
                self.history.push(self.current);
                let n_old = self.live.len();
                for i in 0..n_old
                    invariant
                        n_old == self.live.len(),
                        self.live@ == old(self)@.live,
                        self.current == old(self)@.current,
                        self.pending == None::<ScreenId>,
                        self.registry@ == old(self)@.reg,
                        self.queued@ == old(self)@.queued,
                        self.music_plays == old(self)@.music_plays,
                        self.history@ == crate::history::pushed_one(
                            old(self)@.history,
                            old(self)@.current,
                        ),
                        effects@.len() == i,
                        forall|k: int|
                            0 <= k < i ==> effects@[k] == (Effect::Despawn {
                                element: old(self)@.live[k],
                            }),
                {
                    effects.push(Effect::Despawn { element: self.live[i] });
                }
                self.live.clear();
                effects.push(Effect::Exited { screen: self.current });
                // The single point where the active screen changes.
                self.current = target;
                // Enter work of the incoming screen.
                effects.push(Effect::Entered { screen: target });
                if target == ScreenId::InGame {
                    self.history.clear();
                }
                let ghost base_effs = effects@;
                proof {
                    let live0 = old(self)@.live;
                    assert(base_effs.len() == live0.len() + 2);
                    assert(forall|k: int|
                        0 <= k < live0.len() ==> base_effs[k] == (Effect::Despawn {
                            element: live0[k],
                        }));
                    assert(base_effs[live0.len() as int] == (Effect::Exited {
                        screen: old(self)@.current,
                    }));
                    assert(base_effs[live0.len() as int + 1] == (Effect::Entered {
                        screen: target,
                    }));
                }
                let n_new = self.registry.get_definition(target).len();
                for i in 0..n_new
                    invariant
                        n_new == self.registry@.def_of(target).len(),
                        self.live@.len() == i,
                        forall|k: int|
                            0 <= k < i ==> self.live@[k] == (ElementId {
                                screen: target,
                                entry: k as usize,
                            }),
                        self.current == target,
                        self.pending == None::<ScreenId>,
                        self.registry@ == old(self)@.reg,
                        self.queued@ == old(self)@.queued,
                        self.music_plays == old(self)@.music_plays,
                        self.history@ == (if target == ScreenId::InGame {
                            Seq::<ScreenId>::empty()
                        } else {
                            crate::history::pushed_one(old(self)@.history, old(self)@.current)
                        }),
                        effects@.len() == base_effs.len() + i,
                        effects@.subrange(0, base_effs.len() as int) == base_effs,
                        forall|k: int|
                            base_effs.len() <= k < base_effs.len() + i ==> #[trigger] effects@[k]
                                == (Effect::Spawn {
                                element: ElementId {
                                    screen: target,
                                    entry: (k - base_effs.len()) as usize,
                                },
                            }),
                {
                    self.live.push(ElementId { screen: target, entry: i });
                    effects.push(Effect::Spawn { element: ElementId { screen: target, entry: i } });
                    proof {
                        assert(effects@.subrange(0, base_effs.len() as int) =~= base_effs);
                    }
                }
                if target == ScreenId::MainMenu && self.music_plays == 0 {
                    self.music_plays = self.music_plays + 1;
                    effects.push(Effect::PlayMusic);
                }
                proof {
                    assert(self@.live =~= live_elements(
                        target,
                        old(self)@.reg.def_of(target).len(),
                    ));
                    assert(self@ =~= apply_state(old(self)@));
                    let s0 = old(self)@;
                    let rhs = apply_effects(s0);
                    let len_base = base_effs.len() as int;
                    assert(effects@.len() == rhs.len());
                    assert forall|k: int| 0 <= k < effects@.len() implies effects@[k] == rhs[k] by {
                        if k < len_base {
                            assert(effects@.subrange(0, len_base)[k] == effects@[k]);
                            assert(effects@[k] == base_effs[k]);
                        }
                    }
                    assert(effects@ =~= apply_effects(old(self)@));
                }
                effects
            },
        }
    }

    /// Routes an already-resolved action: screen-opening tags request a
    /// transition; back-navigation pops the history and requests what it
    /// finds, or requests the main menu and reports the empty history;
    /// quitting is signalled to the host; anything else is log-only. The
    /// active screen itself never changes here.
    pub fn handle_action(&mut self, tag: ActionTag) -> (effects: Vec<Effect>)
        requires
            old(self).wf(),
        ensures
            final(self).wf(),
            final(self)@ == action_step(old(self)@, tag).0,
            effects@ == action_step(old(self)@, tag).1,
    {
        let mut effects: Vec<Effect> = Vec::new();
        match route_action(tag) {
            ActionRoute::Transition(target) => {
                self.pending = Some(target);
                proof {
                    assert(self@ =~= action_step(old(self)@, tag).0);
                }
            },
            ActionRoute::Exit => {
                effects.push(Effect::RequestExit);
            },
            ActionRoute::Back => {
                match self.history.pop() {
                    Some(prev) => {
                        self.pending = Some(prev);
                        proof {
                            assert(self@ =~= action_step(old(self)@, tag).0);
                        }
                    },
                    None => {
                        self.pending = Some(ScreenId::MainMenu);
                        effects.push(Effect::LogEmptyHistory);
                        proof {
                            assert(self@ =~= action_step(old(self)@, tag).0);
                        }
                    },
                }
            },
            ActionRoute::LogOnly => {
                effects.push(Effect::LogIgnored);
            },
        }
        proof {
            assert(effects@ =~= action_step(old(self)@, tag).1);
        }
        effects
    }

    /// Dispatches one reported edge: drops it if its element is gone,
    /// restyles on hover edges, and on a press restyles, plays the click
    /// cue, resolves the element's label through the registry and routes
    /// the tag.
    fn dispatch_event(&mut self, e: InteractionEvent) -> (effs: Vec<Effect>)
        requires
            old(self).wf(),
        ensures
            final(self).wf(),
            final(self)@ == dispatch_one(old(self)@, e).0,
            effs@ == dispatch_one(old(self)@, e).1,
    {
        let mut effs: Vec<Effect> = Vec::new();
        let n = self.registry.get_definition(self.current).len();
        proof {
            lemma_live_elements_contains(
                self.current,
                self@.reg.def_of(self.current).len(),
                e.element,
            );
        }
        if !(e.element.screen == self.current && e.element.entry < n) {
            proof {
                assert(effs@ =~= dispatch_one(old(self)@, e).1);
            }
            return effs;
        }
        match e.kind {
            InteractionKind::HoverEnter => {
                effs.push(Effect::SetStyle { element: e.element, style: VisualStyle::Hovered });
            },
            InteractionKind::HoverExit => {
                effs.push(Effect::SetStyle { element: e.element, style: VisualStyle::Normal });
            },
            InteractionKind::Press => {
                effs.push(Effect::SetStyle { element: e.element, style: VisualStyle::Pressed });
                effs.push(Effect::PlayClick);
                let label = self.registry.get_definition(e.element.screen).label_at(
                    e.element.entry,
                ).clone();
                let tag = self.registry.resolve_action(e.element.screen, label.as_str());
                proof {
                    assert(tag == crate::registry::resolve_in(
                        old(self)@.reg.def_of(e.element.screen),
                        label_of(old(self)@, e.element),
                    ));
                }
                let mut extra = self.handle_action(tag);
                effs.append(&mut extra);
            },
        }
        proof {
            assert(effs@ =~= dispatch_one(old(self)@, e).1);
        }
        effs
    }

    /// One frame: applies the pending transition, if any, then dispatches
    /// every edge reported since the previous tick, in arrival order. The
    /// returned effects put all of the outgoing screen's teardown strictly
    /// before any of the incoming screen's setup, and the active screen
    /// after the call is the pending target when there was one, else
    /// unchanged — dispatch within the tick can only request, not move.
    pub fn tick(&mut self) -> (effects: Vec<Effect>)
        requires
            old(self).wf(),
        ensures
            final(self).wf(),
            final(self)@ == tick_step(old(self)@).0,
            effects@ == tick_step(old(self)@).1,
            final(self)@.current == (match old(self)@.pending {
                Some(target) => target,
                None => old(self)@.current,
            }),
    {
        let ghost s0 = old(self)@;
        let mut effects = self.apply_pending_transition();
        let mut events: Vec<InteractionEvent> = Vec::new();
        core::mem::swap(&mut self.queued, &mut events);
        proof {
            assert(self@ =~= (StateModel { queued: Seq::empty(), ..apply_state(s0) }));
        }
        let ghost s_start = self@;
        let ghost evts = events@;
        let mut dispatched: Vec<Effect> = Vec::new();
        let n = events.len();
        proof {
            assert(evts.subrange(0, n as int) =~= evts);
        }
        for i in 0..n
            invariant
                n == evts.len(),
                events@ == evts,
                self.wf(),
                dispatch_all(s_start, evts).0 == dispatch_all(
                    self@,
                    evts.subrange(i as int, n as int),
                ).0,
                dispatch_all(s_start, evts).1 == dispatched@ + dispatch_all(
                    self@,
                    evts.subrange(i as int, n as int),
                ).1,
        {
            proof {
                assert(evts.subrange(i as int, n as int)[0] == evts[i as int]);
                assert(evts.subrange(i as int, n as int).drop_first() =~= evts.subrange(
                    i as int + 1,
                    n as int,
                ));
            }
            let ghost pre = self@;
            let ghost d_pre = dispatched@;
            let mut e_effs = self.dispatch_event(events[i]);
            dispatched.append(&mut e_effs);
            proof {
                let rest = dispatch_all(self@, evts.subrange(i as int + 1, n as int)).1;
                assert(d_pre + (dispatch_one(pre, evts[i as int]).1 + rest) =~= dispatched@
                    + rest);
            }
        }
        proof {
            assert(evts.subrange(n as int, n as int) =~= Seq::<InteractionEvent>::empty());
            assert(dispatch_all(s_start, evts).0 == self@);
            assert(dispatch_all(s_start, evts).1 =~= dispatched@);
            lemma_tick_screen(s0);
            assert(tick_step(s0).0 == self@);
            assert(tick_step(s0).1 =~= effects@ + dispatched@);
        }
        effects.append(&mut dispatched);
        effects
    }
}

} // verus!
