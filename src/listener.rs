use vstd::prelude::*;

use crate::interface::{Runnable, Serializable};

verus! {

/// Why a reload step failed. Each variant carries a human-readable cause.
#[derive(Debug)]
pub enum ReloadError {
    /// The library file is missing or is not a loadable library.
    LibraryOpen(String),
    /// The library lacks the fixed entry symbol.
    SymbolResolution(String),
    /// The entry symbol returned no game object.
    Construction(String),
    /// Arming or removing the watch on the canonical path failed.
    FileWatch(String),
    /// Copying the canonical library to the staging path failed.
    FileCopy(String),
}

/// Which file a handle is loaded from.
#[derive(PartialEq, Eq, Structural, Clone, Copy, Debug)]
pub enum Source {
    /// The canonical library path, the one that is watched.
    Canonical,
    /// The side-by-side copy made before a hot swap.
    Staging,
}

/// How a finished poll or reload ended when it did not fail.
#[derive(PartialEq, Eq, Structural, Clone, Copy, Debug)]
pub enum Outcome {
    /// There was nothing to do.
    NoChange,
    /// A new handle was installed.
    Committed,
    /// The changed library failed the compatibility check; nothing was touched.
    Rejected,
}

/// What the host has to do next on behalf of the listener.
#[derive(Debug)]
pub enum Action {
    /// Remove the watch on the canonical path, then answer with `Event::Watched`.
    Unwatch,
    /// Arm the watch on the canonical path, then answer with `Event::Watched`.
    Watch,
    /// Copy the canonical library to the staging path, then answer with `Event::Copied`.
    CopyToStaging,
    /// Load a fresh handle from the given file, then answer with `Event::Loaded`.
    Load(Source),
    /// The operation is over; nothing more is awaited.
    Finished(Result<Outcome, ReloadError>),
}

/// What the host reports back after carrying out an `Action`.
pub enum Event<H> {
    Copied(Result<(), String>),
    Loaded(Result<H, ReloadError>),
    Watched(Result<(), String>),
}

/// Where the listener stands inside a poll or a reload.
pub enum Phase {
    /// No operation is under way.
    Idle,
    /// A change was seen and the state captured; the staging copy is awaited.
    Staging { data: String },
    /// A candidate loaded from the staging path is awaited for the compatibility check.
    Checking { data: String },
    /// The watch is being removed before a swap.
    Unwatching { reset: bool, source: Source },
    /// The old handle is gone, its state captured in `data` if there was
    /// one; its replacement is awaited.
    Loading { source: Source, data: Option<String> },
    /// A replacement in its default state is awaited; the old handle stays
    /// live until it arrives.
    Restarting { source: Source },
    /// The new handle is live; the watch is being armed again.
    Rewatching,
}

/// One of the listener's three flags.
#[derive(PartialEq, Eq, Structural, Clone, Copy, Debug)]
pub enum Flag {
    Watching,
    Paused,
    Compatibility,
}

/// How a whole poll or reload was begun, for stating what holds of its runs.
pub enum Start {
    Poll(bool),
    Reload(bool),
}

/// The reload orchestrator. It owns at most one plugin handle `H` and the
/// three independent flags, and decides each step of a hot swap; the host
/// performs the file, watch and library work that each step asks for.
///
/// `paused` is a status flag only: it does not stop `update` from reaching
/// the handle.
pub struct GameListener<H> {
    instance: Option<H>,
    watching: bool,
    paused: bool,
    compatibility: bool,
    phase: Phase,
}

impl<H> GameListener<H> {
    pub closed spec fn instance(&self) -> Option<H> {
        self.instance
    }

    pub closed spec fn watching(&self) -> bool {
        self.watching
    }

    pub closed spec fn paused(&self) -> bool {
        self.paused
    }

    pub closed spec fn compatibility(&self) -> bool {
        self.compatibility
    }

    pub closed spec fn phase(&self) -> Phase {
        self.phase
    }
}

/// The three flags are the same in `o` and `f`.
pub open spec fn same_flags<H>(o: GameListener<H>, f: GameListener<H>) -> bool {
    &&& f.watching() == o.watching()
    &&& f.paused() == o.paused()
    &&& f.compatibility() == o.compatibility()
}

/// `f` is `o` back at rest with its handle untouched, and `a` reports `r`.
pub open spec fn ends_unchanged<H>(
    o: GameListener<H>,
    f: GameListener<H>,
    a: Action,
    r: Result<Outcome, ReloadError>,
) -> bool {
    &&& a == Action::Finished(r)
    &&& f.phase() is Idle
    &&& f.instance() == o.instance()
}

/// A replacement from `source` was asked for. With `reset` the old handle
/// stays live until it arrives; else the old handle's state was captured,
/// as its own `serialize` writes it, and the handle released.
pub open spec fn swapped<H: Serializable>(
    o: GameListener<H>,
    f: GameListener<H>,
    a: Action,
    reset: bool,
    source: Source,
) -> bool {
    &&& a == Action::Load(source)
    &&& if reset {
        &&& f.phase() == (Phase::Restarting { source })
        &&& f.instance() == o.instance()
    } else {
        &&& f.instance() is None
        &&& f.phase() is Loading
        &&& f.phase()->Loading_source == source
        &&& (f.phase()->Loading_data is Some <==> o.instance() is Some)
        &&& o.instance() is Some ==> o.instance()->Some_0.holds(f.phase()->Loading_data->Some_0@)
    }
}

/// A reload sourced from `source` was begun: the watch is removed first if
/// it is armed, else the swap happens at once.
pub open spec fn reload_begun<H: Serializable>(
    o: GameListener<H>,
    f: GameListener<H>,
    a: Action,
    reset: bool,
    source: Source,
) -> bool {
    if o.watching() {
        &&& a == Action::Unwatch
        &&& f.phase() == (Phase::Unwatching { reset, source })
        &&& f.instance() == o.instance()
    } else {
        swapped(o, f, a, reset, source)
    }
}

/// `f` is `o` unchanged and `a` asks again for what `o` awaits.
pub open spec fn ignored<H>(o: GameListener<H>, f: GameListener<H>, a: Action) -> bool {
    &&& f == o
    &&& a == match o.phase() {
        Phase::Idle => Action::Finished(Ok(Outcome::NoChange)),
        Phase::Staging { .. } => Action::CopyToStaging,
        Phase::Checking { .. } => Action::Load(Source::Staging),
        Phase::Unwatching { .. } => Action::Unwatch,
        Phase::Loading { source, .. } => Action::Load(source),
        Phase::Restarting { source } => Action::Load(source),
        Phase::Rewatching => Action::Watch,
    }
}

/// What follows the compatibility check: the swap from the staging copy
/// when the captured state fits the candidate, else the change is turned
/// down with the handle untouched.
pub open spec fn checked<H: Serializable>(o: GameListener<H>, compatible: bool, f: GameListener<H>, a: Action) -> bool {
    &&& same_flags(o, f)
    &&& if compatible {
        reload_begun(o, f, a, false, Source::Staging)
    } else {
        ends_unchanged(o, f, a, Ok(Outcome::Rejected))
    }
}

/// What `poll` does, from `o` with `changed` telling whether the watcher
/// reported a change, to `f`, asking for `a`.
pub open spec fn polled<H: Serializable>(o: GameListener<H>, changed: bool, f: GameListener<H>, a: Action) -> bool {
    &&& same_flags(o, f)
    &&& if !changed || o.instance() is None {
        &&& f == o
        &&& a == Action::Finished(Ok(if changed { Outcome::Rejected } else { Outcome::NoChange }))
    } else {
        &&& a == Action::CopyToStaging
        &&& f.phase() is Staging
        &&& o.instance()->Some_0.holds(f.phase()->Staging_data@)
        &&& f.instance() == o.instance()
    }
}

/// What `reload` does from `o` to `f`, asking for `a`.
pub open spec fn reloaded<H: Serializable>(o: GameListener<H>, reset: bool, f: GameListener<H>, a: Action) -> bool {
    &&& same_flags(o, f)
    &&& reload_begun(o, f, a, reset, Source::Canonical)
}

/// A replacement was installed: the watch is armed again if it is on,
/// else the operation is over.
pub open spec fn installed<H>(o: GameListener<H>, f: GameListener<H>, a: Action) -> bool {
    if o.watching() {
        a == Action::Watch && f.phase() is Rewatching
    } else {
        a == Action::Finished(Ok(Outcome::Committed)) && f.phase() is Idle
    }
}

/// What `resume` does from `o` on event `ev` to `f`, asking for `a`.
pub open spec fn stepped<H: Serializable>(o: GameListener<H>, ev: Event<H>, f: GameListener<H>, a: Action) -> bool {
    &&& same_flags(o, f)
    &&& match o.phase() {
        Phase::Idle => ignored(o, f, a),
        Phase::Staging { data } => match ev {
            Event::Copied(Err(e)) => ends_unchanged(o, f, a, Err(ReloadError::FileCopy(e))),
            Event::Copied(Ok(())) => if o.compatibility() {
                reload_begun(o, f, a, false, Source::Staging)
            } else {
                &&& a == Action::Load(Source::Staging)
                &&& f.phase() == (Phase::Checking { data })
                &&& f.instance() == o.instance()
            },
            _ => ignored(o, f, a),
        },
        Phase::Checking { data } => match ev {
            Event::Loaded(Err(_)) => ends_unchanged(o, f, a, Ok(Outcome::Rejected)),
            Event::Loaded(Ok(c)) => checked(o, true, f, a) || (checked(o, false, f, a) && c.refuses(data@)),
            _ => ignored(o, f, a),
        },
        Phase::Unwatching { reset, source } => match ev {
            Event::Watched(Err(e)) => ends_unchanged(o, f, a, Err(ReloadError::FileWatch(e))),
            Event::Watched(Ok(())) => swapped(o, f, a, reset, source),
            _ => ignored(o, f, a),
        },
        Phase::Loading { data, .. } => match ev {
            Event::Loaded(Err(e)) => ends_unchanged(o, f, a, Err(e)),
            Event::Loaded(Ok(h)) => {
                &&& f.instance() is Some
                &&& match data {
                    None => f.instance() == Some(h),
                    Some(d) => f.instance()->Some_0.holds(d@) || (f.instance() == Some(h) && h.refuses(d@)),
                }
                &&& installed(o, f, a)
            },
            _ => ignored(o, f, a),
        },
        Phase::Restarting { .. } => match ev {
            Event::Loaded(Err(e)) => ends_unchanged(o, f, a, Err(e)),
            Event::Loaded(Ok(h)) => {
                &&& f.instance() == Some(h)
                &&& installed(o, f, a)
            },
            _ => ignored(o, f, a),
        },
        Phase::Rewatching => match ev {
            Event::Watched(Ok(())) => ends_unchanged(o, f, a, Ok(Outcome::Committed)),
            Event::Watched(Err(e)) => ends_unchanged(o, f, a, Err(ReloadError::FileWatch(e))),
            _ => ignored(o, f, a),
        },
    }
}

impl<H> GameListener<H> {
    /// A listener at rest that owns `instance`, with every flag off.
    pub fn new(instance: H) -> (r: Self)
        ensures
            r.instance() == Some(instance),
            r.phase() is Idle,
            !r.watching(),
            !r.paused(),
            !r.compatibility(),
    {
        GameListener {
            instance: Some(instance),
            watching: false,
            paused: false,
            compatibility: false,
            phase: Phase::Idle,
        }
    }

    /// Whether a handle is owned right now.
    pub fn has_instance(&self) -> (r: bool)
        ensures
            r == self.instance() is Some,
    {
        self.instance.is_some()
    }

    /// Whether no poll or reload is under way.
    pub fn is_idle(&self) -> (r: bool)
        ensures
            r == self.phase() is Idle,
    {
        match self.phase {
            Phase::Idle => true,
            _ => false,
        }
    }

    pub fn is_watching(&self) -> (r: bool)
        ensures
            r == self.watching(),
    {
        self.watching
    }

    pub fn is_paused(&self) -> (r: bool)
        ensures
            r == self.paused(),
    {
        self.paused
    }

    pub fn is_compatibility_forced(&self) -> (r: bool)
        ensures
            r == self.compatibility(),
    {
        self.compatibility
    }
}

/// `f` is `o` with only the named flag changed, and changed to `v`.
pub open spec fn flag_set<H>(o: GameListener<H>, f: GameListener<H>, which: Flag, v: bool) -> bool {
    &&& f.instance() == o.instance()
    &&& f.phase() == o.phase()
    &&& f.watching() == (if which == Flag::Watching { v } else { o.watching() })
    &&& f.paused() == (if which == Flag::Paused { v } else { o.paused() })
    &&& f.compatibility() == (if which == Flag::Compatibility { v } else { o.compatibility() })
}

/// The value of one flag.
pub open spec fn flag_of<H>(l: GameListener<H>, which: Flag) -> bool {
    match which {
        Flag::Watching => l.watching(),
        Flag::Paused => l.paused(),
        Flag::Compatibility => l.compatibility(),
    }
}

/// Toggling a flag twice gives back the listener it started from.
pub proof fn lemma_toggle_twice<H>(
    l0: GameListener<H>,
    l1: GameListener<H>,
    l2: GameListener<H>,
    which: Flag,
)
    requires
        flag_set(l0, l1, which, !flag_of(l0, which)),
        flag_set(l1, l2, which, !flag_of(l1, which)),
    ensures
        l2 == l0,
{
    l0.lemma_ext_equal(l2);
}

/// `states`, `events` and `actions` record one whole poll or reload begun as
/// `start`: the call takes `states[0]` to `states[1]` asking for
/// `actions[0]`, each answer `events[i]` takes `states[i + 1]` to
/// `states[i + 2]` asking for `actions[i + 1]`, and only the last action
/// finishes the operation.
pub open spec fn is_run<H: Serializable>(
    start: Start,
    states: Seq<GameListener<H>>,
    events: Seq<Event<H>>,
    actions: Seq<Action>,
) -> bool {
    &&& actions.len() >= 1
    &&& states.len() == actions.len() + 1
    &&& events.len() + 1 == actions.len()
    &&& states[0].phase() is Idle
    &&& match start {
        Start::Poll(changed) => polled(states[0], changed, states[1], actions[0]),
        Start::Reload(reset) => reloaded(states[0], reset, states[1], actions[0]),
    }
    &&& forall|i: int|
        0 <= i < events.len() ==> stepped(states[i + 1], #[trigger] events[i], states[i + 2], actions[i + 1])
    &&& forall|i: int| 0 <= i < actions.len() - 1 ==> !(#[trigger] actions[i] is Finished)
    &&& actions.last() is Finished
}

/// The run ended because a state-preserving reload failed to load the
/// replacement after releasing the old handle: the one way a run can leave
/// the listener with no handle.
pub open spec fn replacement_failed<H>(states: Seq<GameListener<H>>, actions: Seq<Action>) -> bool {
    &&& states[states.len() - 2].phase() is Loading
    &&& states[states.len() - 2].phase()->Loading_data is Some
    &&& match actions.last() {
        Action::Finished(Err(_)) => true,
        _ => false,
    }
}

proof fn lemma_run_prefix<H: Serializable>(
    start: Start,
    states: Seq<GameListener<H>>,
    events: Seq<Event<H>>,
    actions: Seq<Action>,
    k: int,
)
    requires
        is_run(start, states, events, actions),
        1 <= k < actions.len(),
    ensures
        states[0].instance() is Some ==> (states[k].phase() is Loading || states[k].instance() is Some),
        states[0].instance() is Some && states[k].phase() is Loading ==> states[k].phase()->Loading_data is Some,
        (start is Poll && (states[k].phase() is Staging || states[k].phase() is Checking)) ==> states[k].instance()
            == states[0].instance(),
    decreases k,
{
    if k > 1 {
        lemma_run_prefix(start, states, events, actions, k - 1);
        assert(stepped(states[k - 1], events[k - 2], states[k], actions[k - 1]));
        assert(!(actions[k - 2] is Finished));
        assert(!(actions[k - 1] is Finished));
    } else {
        assert(!(actions[0] is Finished));
    }
}

/// A poll or reload that begins with a live handle ends at rest with exactly
/// one live handle, unless a state-preserving reload failed to load the
/// replacement; so any sequence
/// of such operations that starts from `new` keeps one live handle.
pub proof fn lemma_run_keeps_one_handle<H: Serializable>(
    start: Start,
    states: Seq<GameListener<H>>,
    events: Seq<Event<H>>,
    actions: Seq<Action>,
)
    requires
        is_run(start, states, events, actions),
        states[0].instance() is Some,
        !replacement_failed(states, actions),
    ensures
        states.last().instance() is Some,
        states.last().phase() is Idle,
{
    let m = actions.len() as int;
    if m > 1 {
        lemma_run_prefix(start, states, events, actions, m - 1);
        assert(stepped(states[m - 1], events[m - 2], states[m], actions[m - 1]));
    }
}

/// A poll whose change is turned down by the compatibility check leaves the
/// live handle exactly as it was.
pub proof fn lemma_rejected_poll_keeps_handle<H: Serializable>(
    changed: bool,
    states: Seq<GameListener<H>>,
    events: Seq<Event<H>>,
    actions: Seq<Action>,
)
    requires
        is_run(Start::Poll(changed), states, events, actions),
        actions.last() == Action::Finished(Ok(Outcome::Rejected)),
    ensures
        states.last().instance() == states[0].instance(),
{
    let m = actions.len() as int;
    if m > 1 {
        lemma_run_prefix(Start::Poll(changed), states, events, actions, m - 1);
        assert(stepped(states[m - 1], events[m - 2], states[m], actions[m - 1]));
    }
}

impl<H> GameListener<H> {
    /// Two listeners that agree on every part are equal.
    pub proof fn lemma_ext_equal(self, other: Self)
        requires
            self.instance() == other.instance(),
            self.phase() == other.phase(),
            self.watching() == other.watching(),
            self.paused() == other.paused(),
            self.compatibility() == other.compatibility(),
        ensures
            self == other,
    {
    }

    /// Flips `paused` and reports its new value.
    pub fn pause_toggle(&mut self) -> (now: bool)
        ensures
            now == !old(self).paused(),
            flag_set(*old(self), *final(self), Flag::Paused, now),
    {
        self.paused = !self.paused;
        self.paused
    }

    /// Flips `watching` and reports its new value. The host arms the watch on
    /// the canonical path when it comes back true and removes it when false.
    pub fn watch_toggle(&mut self) -> (now: bool)
        ensures
            now == !old(self).watching(),
            flag_set(*old(self), *final(self), Flag::Watching, now),
    {
        self.watching = !self.watching;
        self.watching
    }

    /// Flips `compatibility` (skip the compatibility check and always commit a detected
    /// change) and reports its new value.
    pub fn compatibility_toggle(&mut self) -> (now: bool)
        ensures
            now == !old(self).compatibility(),
            flag_set(*old(self), *final(self), Flag::Compatibility, now),
    {
        self.compatibility = !self.compatibility;
        self.compatibility
    }

    /// Forwards one frame's update to the owned handle, if any.
    pub fn update_t<U, R>(&mut self, context: &mut U) where H: Runnable<U, R>
        ensures
            same_flags(*old(self), *final(self)),
            final(self).phase() == old(self).phase(),
            final(self).instance() is Some <==> old(self).instance() is Some,
            old(self).instance() is Some ==> old(self).instance()->Some_0.updates(*old(context), *final(context)),
            old(self).instance() is None ==> *final(context) == *old(context),
    {
        match &mut self.instance {
            Some(h) => h.update(context),
            None => {},
        }
    }

    /// Forwards one frame's drawing to the owned handle, if any.
    pub fn render_t<U, R>(&self, context: &mut R) where H: Runnable<U, R>
        ensures
            self.instance() is Some ==> self.instance()->Some_0.renders(*old(context), *final(context)),
            self.instance() is None ==> *final(context) == *old(context),
    {
        match &self.instance {
            Some(h) => h.render(context),
            None => {},
        }
    }
}

impl<U, R, H: Runnable<U, R>> Runnable<U, R> for GameListener<H> {
    /// An update is the owned handle's update, or nothing without a handle.
    open spec fn updates(&self, context: U, context_after: U) -> bool {
        match self.instance() {
            Some(h) => h.updates(context, context_after),
            None => context_after == context,
        }
    }

    /// Drawing is the owned handle's drawing, or nothing without a handle.
    open spec fn renders(&self, context: R, context_after: R) -> bool {
        match self.instance() {
            Some(h) => h.renders(context, context_after),
            None => context_after == context,
        }
    }

    fn update(&mut self, context: &mut U) {
        self.update_t::<U, R>(context);
    }

    fn render(&self, context: &mut R) {
        self.render_t::<U, R>(context);
    }
}

impl<H: Serializable> GameListener<H> {
    /// The state of the owned handle as text, if there is one.
    pub fn as_data(&self) -> (r: Option<String>)
        ensures
            r is Some <==> self.instance() is Some,
            r is Some ==> self.instance()->Some_0.holds(r->Some_0@),
    {
        match &self.instance {
            Some(h) => Some(h.serialize()),
            None => None,
        }
    }

    /// Asks for a replacement from `source`. With `reset` the owned handle
    /// is kept until the replacement arrives; else its state is captured
    /// and it is released first.
    fn swap(&mut self, reset: bool, source: Source) -> (a: Action)
        ensures
            same_flags(*old(self), *final(self)),
            swapped(*old(self), *final(self), a, reset, source),
    {
        if reset {
            self.phase = Phase::Restarting { source };
        } else {
            let data = self.as_data();
            self.instance = None;
            self.phase = Phase::Loading { source, data };
        }
        Action::Load(source)
    }

    /// Makes `fresh` the owned handle, releasing any old one, and re-arms the
    /// watch if it is on.
    fn install(&mut self, fresh: H) -> (a: Action)
        ensures
            same_flags(*old(self), *final(self)),
            final(self).instance() == Some(fresh),
            installed(*old(self), *final(self), a),
    {
        self.instance = Some(fresh);
        if self.watching {
            self.phase = Phase::Rewatching;
            Action::Watch
        } else {
            self.phase = Phase::Idle;
            Action::Finished(Ok(Outcome::Committed))
        }
    }

    /// Starts a reload from `source`, removing the watch first if it is armed.
    fn begin_reload(&mut self, reset: bool, source: Source) -> (a: Action)
        ensures
            same_flags(*old(self), *final(self)),
            reload_begun(*old(self), *final(self), a, reset, source),
    {
        if self.watching {
            self.phase = Phase::Unwatching { reset, source };
            Action::Unwatch
        } else {
            self.swap(reset, source)
        }
    }

    /// Looks at the watcher's news. When the canonical library changed and a
    /// handle is live, captures its state and asks for the staging copy;
    /// with no handle to preserve, the change is turned down.
    pub fn poll(&mut self, changed: bool) -> (a: Action)
        requires
            old(self).phase() is Idle,
        ensures
            polled(*old(self), changed, *final(self), a),
    {
        if !changed {
            return Action::Finished(Ok(Outcome::NoChange));
        }
        match self.as_data() {
            None => Action::Finished(Ok(Outcome::Rejected)),
            Some(data) => {
                self.phase = Phase::Staging { data };
                Action::CopyToStaging
            },
        }
    }

    /// Replaces the handle with one loaded from the canonical path: with
    /// `reset` in its default state, else carrying over the current state.
    ///
    /// A restart keeps the old handle live until its replacement has loaded,
    /// so a failed restart leaves it untouched. A state-preserving reload
    /// releases the old handle first, because opening a library that is
    /// still open hands back the old code; when that load fails the listener
    /// is left without a handle until a later reload (normally a restart)
    /// succeeds.
    pub fn reload(&mut self, reset: bool) -> (a: Action)
        requires
            old(self).phase() is Idle,
        ensures
            reloaded(*old(self), reset, *final(self), a),
    {
        self.begin_reload(reset, Source::Canonical)
    }

    /// Acts on the compatibility check of a candidate loaded from the
    /// staging copy: `compatible` tells whether the captured state was
    /// accepted by the candidate. The candidate itself is never kept.
    pub fn conclude_check(&mut self, compatible: bool) -> (a: Action)
        requires
            old(self).phase() is Checking,
        ensures
            checked(*old(self), compatible, *final(self), a),
    {
        self.phase = Phase::Idle;
        if compatible {
            self.begin_reload(false, Source::Staging)
        } else {
            Action::Finished(Ok(Outcome::Rejected))
        }
    }

    /// Takes the host's answer to the last action and decides the next one.
    /// An answer that does not fit what is awaited is dropped and the
    /// awaited action asked for again.
    pub fn resume(&mut self, event: Event<H>) -> (a: Action)
        ensures
            stepped(*old(self), event, *final(self), a),
    {
        let mut phase = Phase::Idle;
        core::mem::swap(&mut self.phase, &mut phase);
        match phase {
            Phase::Idle => Action::Finished(Ok(Outcome::NoChange)),
            Phase::Staging { data } => match event {
                Event::Copied(Err(e)) => Action::Finished(Err(ReloadError::FileCopy(e))),
                Event::Copied(Ok(())) => {
                    if self.compatibility {
                        self.begin_reload(false, Source::Staging)
                    } else {
                        self.phase = Phase::Checking { data };
                        Action::Load(Source::Staging)
                    }
                },
                _ => {
                    self.phase = Phase::Staging { data };
                    Action::CopyToStaging
                },
            },
            Phase::Checking { data } => match event {
                Event::Loaded(Err(_)) => Action::Finished(Ok(Outcome::Rejected)),
                Event::Loaded(Ok(candidate)) => {
                    let mut candidate = candidate;
                    let compatible = candidate.deserialize(data.as_str());
                    self.phase = Phase::Checking { data };
                    self.conclude_check(compatible)
                },
                _ => {
                    self.phase = Phase::Checking { data };
                    Action::Load(Source::Staging)
                },
            },
            Phase::Unwatching { reset, source } => match event {
                Event::Watched(Err(e)) => Action::Finished(Err(ReloadError::FileWatch(e))),
                Event::Watched(Ok(())) => self.swap(reset, source),
                _ => {
                    self.phase = Phase::Unwatching { reset, source };
                    Action::Unwatch
                },
            },
            Phase::Loading { source, data } => match event {
                Event::Loaded(Err(e)) => Action::Finished(Err(e)),
                Event::Loaded(Ok(fresh)) => {
                    let mut fresh = fresh;
                    match data {
                        Some(d) => {
                            fresh.deserialize(d.as_str());
                        },
                        None => {},
                    }
                    self.install(fresh)
                },
                _ => {
                    self.phase = Phase::Loading { source, data };
                    Action::Load(source)
                },
            },
            Phase::Restarting { source } => match event {
                Event::Loaded(Err(e)) => Action::Finished(Err(e)),
                Event::Loaded(Ok(fresh)) => self.install(fresh),
                _ => {
                    self.phase = Phase::Restarting { source };
                    Action::Load(source)
                },
            },
            Phase::Rewatching => match event {
                Event::Watched(Ok(())) => Action::Finished(Ok(Outcome::Committed)),
                Event::Watched(Err(e)) => Action::Finished(Err(ReloadError::FileWatch(e))),
                _ => {
                    self.phase = Phase::Rewatching;
                    Action::Watch
                },
            },
        }
    }
}

} // verus!
