//! The scene stack: an ordered sequence of exclusively-owned scenes,
//! last-pushed on top, with an enter/exit lifecycle protocol.
//!
//! Only the top scene is active: it alone receives update and event
//! dispatch. Every scene is rendered, bottom to top, so a lower scene stays
//! visible under an overlay. The stack keeps a ghost log of every lifecycle
//! callback it makes: each record carries the identity the stack assigned to
//! the scene when it was pushed, and, for update and event dispatch, the
//! argument handed to the callback. The contracts below pin down, through
//! that log, which callbacks each operation makes, in what order, and with
//! what arguments.
//!
//! Caller obligation: no scene may push or pop reentrantly from within its
//! own `on_enter`/`on_exit` callback; the stack does not guard against it.

use vstd::prelude::*;
use crate::event::Event;

verus! {

/// Trait for scene management in the application. Implement it to define
/// how a scene behaves when entered, exited, updated, on events and when
/// rendered. Every operation is optional and defaults to a no-op.
pub trait Scene: Sized {
    /// The render surface the scene draws on.
    type Surface;

    /// Called when the scene becomes the top of the stack.
    fn on_enter(&mut self) {
    }

    /// Called when the scene stops being the top of the stack.
    fn on_exit(&mut self) {
    }

    /// Update the scene logic; `dt_micros` is the frame's delta time in
    /// microseconds.
    fn on_update(&mut self, dt_micros: u64) {
    }

    /// Handle one input event.
    fn on_event(&mut self, event: &Event) {
    }

    /// Render the scene to the surface.
    fn on_render(&mut self, surface: &mut Self::Surface) {
    }
}

/// One lifecycle callback made by the stack, recorded in its ghost call
/// log. Each record carries the identity the stack assigned to the scene
/// the callback went to; update and event records also carry the argument
/// handed to the callback.
pub ghost enum SceneCall {
    /// `on_enter` on the scene that became top.
    Enter(int),
    /// `on_exit` on the scene that stopped being top.
    Exit(int),
    /// `on_update` on the top scene, with the delta time handed to it.
    Update(int, u64),
    /// `on_event` on the top scene, with the event handed to it.
    HandleEvent(int, Event),
    /// `on_render` on one scene of the stack.
    Render(int),
}

/// The callbacks a push makes, in order: the prior top exits strictly
/// before the new scene enters.
pub open spec fn push_calls(prior_top: Option<int>, entered: int) -> Seq<SceneCall> {
    match prior_top {
        Some(t) => seq![SceneCall::Exit(t), SceneCall::Enter(entered)],
        None => seq![SceneCall::Enter(entered)],
    }
}

/// The callbacks a pop makes, in order: the removed top exits strictly
/// before the newly exposed top, if any, enters.
pub open spec fn pop_calls(removed: int, exposed: Option<int>) -> Seq<SceneCall> {
    match exposed {
        Some(t) => seq![SceneCall::Exit(removed), SceneCall::Enter(t)],
        None => seq![SceneCall::Exit(removed)],
    }
}

/// The callbacks a render pass makes: one render per scene, bottom to top.
pub open spec fn render_calls(ids: Seq<int>) -> Seq<SceneCall> {
    ids.map_values(|id: int| SceneCall::Render(id))
}

/// An ordered stack of exclusively-owned scenes; the last-pushed scene is
/// the active top.
pub struct SceneStack<S> {
    scenes: Vec<S>,
    ids: Ghost<Seq<int>>,
    next_id: Ghost<int>,
    calls: Ghost<Seq<SceneCall>>,
}

impl<S: Scene> SceneStack<S> {
    /// The scenes on the stack, bottom first.
    pub closed spec fn scenes_seq(self) -> Seq<S> {
        self.scenes@
    }

    /// The identity the stack assigned to each of its scenes, bottom first.
    pub closed spec fn ids_seq(self) -> Seq<int> {
        self.ids@
    }

    /// Every lifecycle callback the stack has made so far, oldest first.
    pub closed spec fn call_log(self) -> Seq<SceneCall> {
        self.calls@
    }

    /// The identity the next pushed scene will receive.
    pub closed spec fn fresh_id(self) -> int {
        self.next_id@
    }

    /// How many scenes are on the stack.
    pub open spec fn depth(self) -> nat {
        self.scenes_seq().len()
    }

    /// The identity of the active top scene; meaningful only on a non-empty
    /// stack.
    pub open spec fn top_id(self) -> int {
        self.ids_seq().last()
    }

    /// Stack validity: one identity per scene, all below the next fresh
    /// one, handed out in increasing order from bottom to top.
    pub closed spec fn wf(self) -> bool {
        &&& self.ids@.len() == self.scenes@.len()
        &&& forall|k: int| 0 <= k < self.ids@.len() ==> self.ids@[k] < self.next_id@
        &&& forall|k1: int, k2: int|
            0 <= k1 < k2 < self.ids@.len() ==> self.ids@[k1] < self.ids@[k2]
    }

    /// An empty stack.
    pub fn new() -> (s: Self)
        ensures
            s.wf(),
            s.scenes_seq() == Seq::<S>::empty(),
            s.ids_seq() == Seq::<int>::empty(),
            s.call_log() == Seq::<SceneCall>::empty(),
            s.fresh_id() == 0,
    {
        SceneStack {
            scenes: Vec::new(),
            ids: Ghost(Seq::empty()),
            next_id: Ghost(0),
            calls: Ghost(Seq::empty()),
        }
    }

    /// Push a new scene onto the stack: the prior top, if any, exits first,
    /// then the new scene enters and becomes top.
    pub fn push_scene(&mut self, scene: S)
        requires
            old(self).wf(),
        ensures
            final(self).wf(),
            final(self).ids_seq() == old(self).ids_seq().push(old(self).fresh_id()),
            final(self).fresh_id() == old(self).fresh_id() + 1,
            final(self).scenes_seq().len() == old(self).scenes_seq().len() + 1,
            forall|k: int|
                0 <= k < old(self).scenes_seq().len() - 1 ==> final(self).scenes_seq()[k]
                    == old(self).scenes_seq()[k],
            final(self).call_log() == old(self).call_log() + push_calls(
                if old(self).depth() > 0 {
                    Some(old(self).top_id())
                } else {
                    None
                },
                old(self).fresh_id(),
            ),
    {
        let n = self.scenes.len();
        if n > 0 {
            let current = &mut self.scenes[n - 1];
            current.on_exit();
            self.calls = Ghost(self.calls@.push(SceneCall::Exit(self.ids@[n as int - 1])));
        }
        let mut entering = scene;
        entering.on_enter();
        self.scenes.push(entering);
        self.calls = Ghost(self.calls@.push(SceneCall::Enter(self.next_id@)));
        self.ids = Ghost(self.ids@.push(self.next_id@));
        self.next_id = Ghost(self.next_id@ + 1);
        proof {
            assert(self.calls@ =~= old(self).calls@ + push_calls(
                if old(self).depth() > 0 {
                    Some(old(self).top_id())
                } else {
                    None
                },
                old(self).fresh_id(),
            ));
        }
    }

    /// Pop the top scene. On an empty stack nothing is removed and no
    /// callback is made. Otherwise the removed top exits, the newly exposed
    /// top, if any, enters, and the removed scene is handed to the caller
    /// by ownership transfer.
    pub fn pop_scene(&mut self) -> (r: Option<S>)
        requires
            old(self).wf(),
        ensures
            final(self).wf(),
            old(self).depth() == 0 ==> {
                &&& r is None
                &&& final(self).scenes_seq() == old(self).scenes_seq()
                &&& final(self).ids_seq() == old(self).ids_seq()
                &&& final(self).call_log() == old(self).call_log()
                &&& final(self).fresh_id() == old(self).fresh_id()
            },
            old(self).depth() > 0 ==> {
                &&& r is Some
                &&& final(self).ids_seq() == old(self).ids_seq().drop_last()
                &&& final(self).scenes_seq().len() == old(self).scenes_seq().len() - 1
                &&& forall|k: int|
                    0 <= k < final(self).scenes_seq().len() - 1 ==> final(self).scenes_seq()[k]
                        == old(self).scenes_seq()[k]
                &&& final(self).fresh_id() == old(self).fresh_id()
                &&& final(self).call_log() == old(self).call_log() + pop_calls(
                    old(self).top_id(),
                    if final(self).depth() > 0 {
                        Some(final(self).top_id())
                    } else {
                        None
                    },
                )
            },
    {
        match self.scenes.pop() {
            Some(removed) => {
                self.ids = Ghost(self.ids@.drop_last());
                let mut removed = removed;
                removed.on_exit();
                self.calls = Ghost(self.calls@.push(SceneCall::Exit(old(self).ids@.last())));
                let m = self.scenes.len();
                if m > 0 {
                    let next = &mut self.scenes[m - 1];
                    next.on_enter();
                    self.calls = Ghost(self.calls@.push(SceneCall::Enter(self.ids@[m as int - 1])));
                }
                proof {
                    assert(self.calls@ =~= old(self).calls@ + pop_calls(
                        old(self).top_id(),
                        if self.ids@.len() > 0 {
                            Some(self.ids@.last())
                        } else {
                            None
                        },
                    ));
                }
                Some(removed)
            },
            None => None,
        }
    }

    /// Update the active top scene, if any; no other scene ticks while
    /// occluded.
    pub fn update(&mut self, dt_micros: u64)
        requires
            old(self).wf(),
        ensures
            final(self).wf(),
            final(self).ids_seq() == old(self).ids_seq(),
            final(self).fresh_id() == old(self).fresh_id(),
            final(self).scenes_seq().len() == old(self).scenes_seq().len(),
            forall|k: int|
                0 <= k < old(self).scenes_seq().len() - 1 ==> final(self).scenes_seq()[k]
                    == old(self).scenes_seq()[k],
            old(self).depth() > 0 ==> final(self).call_log() == old(self).call_log().push(
                SceneCall::Update(old(self).top_id(), dt_micros),
            ),
            old(self).depth() == 0 ==> final(self).call_log() == old(self).call_log()
                && final(self).scenes_seq() == old(self).scenes_seq(),
    {
        let n = self.scenes.len();
        if n > 0 {
            let top = &mut self.scenes[n - 1];
            top.on_update(dt_micros);
            self.calls = Ghost(
                self.calls@.push(SceneCall::Update(self.ids@[n as int - 1], dt_micros)),
            );
        }
    }

    /// Hand one input event to the active top scene, if any.
    pub fn handle_event(&mut self, event: &Event)
        requires
            old(self).wf(),
        ensures
            final(self).wf(),
            final(self).ids_seq() == old(self).ids_seq(),
            final(self).fresh_id() == old(self).fresh_id(),
            final(self).scenes_seq().len() == old(self).scenes_seq().len(),
            forall|k: int|
                0 <= k < old(self).scenes_seq().len() - 1 ==> final(self).scenes_seq()[k]
                    == old(self).scenes_seq()[k],
            old(self).depth() > 0 ==> final(self).call_log() == old(self).call_log().push(
                SceneCall::HandleEvent(old(self).top_id(), *event),
            ),
            old(self).depth() == 0 ==> final(self).call_log() == old(self).call_log()
                && final(self).scenes_seq() == old(self).scenes_seq(),
    {
        let n = self.scenes.len();
        if n > 0 {
            let top = &mut self.scenes[n - 1];
            top.on_event(event);
            self.calls = Ghost(
                self.calls@.push(SceneCall::HandleEvent(self.ids@[n as int - 1], *event)),
            );
        }
    }

    /// Render every scene, bottom to top, so overlays compose over what is
    /// below them.
    pub fn render(&mut self, surface: &mut S::Surface)
        requires
            old(self).wf(),
        ensures
            final(self).wf(),
            final(self).ids_seq() == old(self).ids_seq(),
            final(self).fresh_id() == old(self).fresh_id(),
            final(self).scenes_seq().len() == old(self).scenes_seq().len(),
            final(self).call_log() == old(self).call_log() + render_calls(old(self).ids_seq()),
    {
        let n = self.scenes.len();
        let mut i: usize = 0;
        proof {
            assert(self.calls@ =~= old(self).calls@ + render_calls(self.ids@.take(0)));
        }
        while i < n
            invariant
                i <= n,
                self.wf(),
                n == self.scenes@.len(),
                self.ids@ == old(self).ids@,
                self.next_id@ == old(self).next_id@,
                self.scenes@.len() == old(self).scenes@.len(),
                self.calls@ == old(self).calls@ + render_calls(self.ids@.take(i as int)),
            decreases n - i,
        {
            let scene = &mut self.scenes[i];
            scene.on_render(surface);
            let ghost before = self.calls@;
            self.calls = Ghost(self.calls@.push(SceneCall::Render(self.ids@[i as int])));
            proof {
                assert(render_calls(self.ids@.take(i as int + 1)) =~= render_calls(
                    self.ids@.take(i as int),
                ).push(SceneCall::Render(self.ids@[i as int])));
                assert(self.calls@ =~= old(self).calls@ + render_calls(
                    self.ids@.take(i as int + 1),
                ));
            }
            i = i + 1;
        }
        proof {
            assert(self.ids@.take(n as int) =~= self.ids@);
        }
    }

    /// Returns true if the stack is empty.
    pub fn is_empty(&self) -> (r: bool)
        ensures
            r == (self.depth() == 0),
    {
        self.scenes.len() == 0
    }

    /// Returns the number of scenes in the stack.
    pub fn len(&self) -> (r: usize)
        ensures
            r == self.depth(),
    {
        self.scenes.len()
    }
}

impl<S: Scene> Default for SceneStack<S> {
    /// An empty stack.
    fn default() -> (s: Self)
        ensures
            s.wf(),
            s.scenes_seq() == Seq::<S>::empty(),
            s.ids_seq() == Seq::<int>::empty(),
            s.call_log() == Seq::<SceneCall>::empty(),
            s.fresh_id() == 0,
    {
        Self::new()
    }
}

/// Law: a push onto a non-empty stack makes exactly two callbacks, and the
/// prior top's exit comes strictly before the new scene's enter.
pub proof fn lemma_push_exit_precedes_enter(prior_top: int, entered: int)
    ensures
        push_calls(Some(prior_top), entered).len() == 2,
        push_calls(Some(prior_top), entered)[0] == SceneCall::Exit(prior_top),
        push_calls(Some(prior_top), entered)[1] == SceneCall::Enter(entered),
{
}

/// Law: a pop that exposes a scene below makes exactly two callbacks, and
/// the removed top's exit comes strictly before the exposed scene's enter.
pub proof fn lemma_pop_exit_precedes_enter(removed: int, exposed: int)
    ensures
        pop_calls(removed, Some(exposed)).len() == 2,
        pop_calls(removed, Some(exposed))[0] == SceneCall::Exit(removed),
        pop_calls(removed, Some(exposed))[1] == SceneCall::Enter(exposed),
{
}

/// Law: a render pass makes one render callback per scene, bottom to top,
/// in exactly the stack's order.
pub proof fn lemma_render_order(ids: Seq<int>)
    ensures
        render_calls(ids).len() == ids.len(),
        forall|k: int| 0 <= k < ids.len() ==> render_calls(ids)[k] == SceneCall::Render(ids[k]),
{
}

/// Law: the active scene — the one update and event dispatch go to — is the
/// most recently pushed scene still on the stack: identities are handed out
/// in increasing order, and the top carries the greatest live one.
pub proof fn lemma_top_is_most_recent<S: Scene>(s: &SceneStack<S>)
    requires
        s.wf(),
        s.depth() > 0,
    ensures
        forall|k: int| 0 <= k < s.ids_seq().len() ==> s.ids_seq()[k] <= s.top_id(),
{
}

} // verus!
