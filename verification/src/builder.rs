//! The configuration builder.
//!
//! [`LuaActorBuilder`] accumulates the three hook sources and the optional
//! initialization routine through a fluent, order-independent chain, and
//! defers all compilation to [`LuaActorBuilder::build`].  Each setter only
//! touches its own slot and the last write to a slot wins; `build` consumes
//! the configuration.  The laws at the end of this module state those
//! ordering facts, and that construction is deterministic in the
//! configuration.

use vstd::prelude::*;

use crate::actor::{ActorView, BuildError, InitializeVm, LuaActor, NoInit};
use crate::engine::{lua_parse_diag, lua_parses, noop_script, noop_script_text};

verus! {

/// What a configuration value looks like in contracts: each slot's source
/// (`None` meaning "left to the default"), and whether a routine is attached.
#[verifier::ext_equal]
pub ghost struct Config {
    pub started: Option<Seq<char>>,
    pub handle: Option<Seq<char>>,
    pub stopped: Option<Seq<char>>,
    pub has_routine: bool,
}

/// The source a slot of the configuration resolves to.
pub open spec fn slot_text(src: Option<Seq<char>>) -> Seq<char> {
    match src {
        Some(text) => text,
        None => noop_script(),
    }
}

/// The configuration every builder starts from: each slot holding the no-op
/// script, no routine attached.
pub open spec fn initial_config() -> Config {
    Config {
        started: Some(noop_script()),
        handle: Some(noop_script()),
        stopped: Some(noop_script()),
        has_routine: false,
    }
}

/// The configuration after the `started` slot is set to `text`.
pub open spec fn with_started(c: Config, text: Seq<char>) -> Config {
    Config { started: Some(text), ..c }
}

/// The configuration after the `handle` slot is set to `text`.
pub open spec fn with_handle(c: Config, text: Seq<char>) -> Config {
    Config { handle: Some(text), ..c }
}

/// The configuration after the `stopped` slot is set to `text`.
pub open spec fn with_stopped(c: Config, text: Seq<char>) -> Config {
    Config { stopped: Some(text), ..c }
}

/// The configuration after a routine is attached.
pub open spec fn with_routine(c: Config) -> Config {
    Config { has_routine: true, ..c }
}

/// Whether the engine accepts every hook this configuration resolves to.
pub open spec fn config_accepted(c: Config) -> bool {
    lua_parses(slot_text(c.started)) && lua_parses(slot_text(c.handle)) && lua_parses(
        slot_text(c.stopped),
    )
}

/// The hooks of the actor this configuration describes.
pub open spec fn actor_of(c: Config) -> ActorView {
    ActorView {
        started: slot_text(c.started),
        handle: slot_text(c.handle),
        stopped: slot_text(c.stopped),
    }
}

/// The diagnostic a build of this configuration reports when some hook is
/// rejected: that of the first rejected slot, in started, handle, stopped
/// order.
pub open spec fn config_diag(c: Config) -> Seq<char> {
    if !lua_parses(slot_text(c.started)) {
        lua_parse_diag(slot_text(c.started))
    } else if !lua_parses(slot_text(c.handle)) {
        lua_parse_diag(slot_text(c.handle))
    } else {
        lua_parse_diag(slot_text(c.stopped))
    }
}

/// Accumulates the hook sources and the initialization routine for a
/// [`LuaActor`], then builds it.
pub struct LuaActorBuilder<I: InitializeVm> {
    started: Option<String>,
    handle: Option<String>,
    stopped: Option<String>,
    initialize_vm: Option<I>,
}

impl<I: InitializeVm> View for LuaActorBuilder<I> {
    type V = Config;

    closed spec fn view(&self) -> Config {
        Config {
            started: match self.started {
                Some(text) => Some(text@),
                None => None,
            },
            handle: match self.handle {
                Some(text) => Some(text@),
                None => None,
            },
            stopped: match self.stopped {
                Some(text) => Some(text@),
                None => None,
            },
            has_routine: self.initialize_vm is Some,
        }
    }
}

impl Default for LuaActorBuilder<NoInit> {
    /// The all-default configuration: every hook the no-op script, no
    /// initialization routine.
    fn default() -> (r: Self)
        ensures
            r@ == initial_config(),
    {
        LuaActorBuilder {
            started: Some(noop_script_text()),
            handle: Some(noop_script_text()),
            stopped: Some(noop_script_text()),
            initialize_vm: None,
        }
    }
}

impl LuaActorBuilder<NoInit> {
    /// A new configuration value with all-default slots.
    pub fn new() -> (r: Self)
        ensures
            r@ == initial_config(),
    {
        Self::default()
    }
}

impl<I: InitializeVm> LuaActorBuilder<I> {
    /// Sets the `started` hook to the given script text, verbatim.
    pub fn on_started_with_lua(self, script: &str) -> (r: Self)
        ensures
            r@ == with_started(self@, script@),
    {
        let LuaActorBuilder { started: _, handle, stopped, initialize_vm } = self;
        LuaActorBuilder { started: Some(script.to_owned()), handle, stopped, initialize_vm }
    }

    /// Sets the `handle` hook to the given script text, verbatim.
    pub fn on_handle_with_lua(self, script: &str) -> (r: Self)
        ensures
            r@ == with_handle(self@, script@),
    {
        let LuaActorBuilder { started, handle: _, stopped, initialize_vm } = self;
        LuaActorBuilder { started, handle: Some(script.to_owned()), stopped, initialize_vm }
    }

    /// Sets the `stopped` hook to the given script text, verbatim.
    pub fn on_stopped_with_lua(self, script: &str) -> (r: Self)
        ensures
            r@ == with_stopped(self@, script@),
    {
        let LuaActorBuilder { started, handle, stopped: _, initialize_vm } = self;
        LuaActorBuilder { started, handle, stopped: Some(script.to_owned()), initialize_vm }
    }

    /// Attaches the initialization routine, replacing any routine attached
    /// before: the last routine given is the one construction runs.
    pub fn with_vm<J: InitializeVm>(self, routine: J) -> (r: LuaActorBuilder<J>)
        ensures
            r@ == with_routine(self@),
    {
        let LuaActorBuilder { started, handle, stopped, initialize_vm: _ } = self;
        LuaActorBuilder { started, handle, stopped, initialize_vm: Some(routine) }
    }

    /// Consumes the configuration and constructs the actor.  Succeeds, with
    /// hooks carrying exactly the configured texts, when every hook compiles
    /// and the routine (if any) reports success; fails with the script-error
    /// class when some hook is rejected, and with the routine's own error
    /// when the routine fails.
    pub fn build(self) -> (r: Result<LuaActor, BuildError>)
        ensures
            r matches Ok(a) ==> config_accepted(self@) && a@ == actor_of(self@),
            !config_accepted(self@) ==> (r matches Err(e) && e matches BuildError::Script(m)
                && m@ == config_diag(self@)),
            r matches Err(e) && e is Script ==> !config_accepted(self@),
            r matches Err(e) && e is Init ==> config_accepted(self@) && self@.has_routine,
            config_accepted(self@) && !self@.has_routine ==> r is Ok,
            actor_of(self@) == default_hooks() && !self@.has_routine ==> r is Ok,
    {
        let LuaActorBuilder { started, handle, stopped, initialize_vm } = self;
        LuaActor::new(started, handle, stopped, initialize_vm)
    }
}

/// The hooks of an actor built with no setter called: all three the no-op
/// script.
pub open spec fn default_hooks() -> ActorView {
    ActorView { started: noop_script(), handle: noop_script(), stopped: noop_script() }
}

/// Law: with no setter called at all, every hook of the described actor is
/// the no-op script.
pub proof fn lemma_default_hooks_are_noop()
    ensures
        actor_of(initial_config()) == default_hooks(),
{
    assert(actor_of(initial_config()) =~= default_hooks());
}

/// Law: an inline-set script text is used verbatim as the corresponding hook
/// body of the described actor — no wrapping, no default fallback.
pub proof fn lemma_inline_text_verbatim(c: Config, text: Seq<char>)
    ensures
        actor_of(with_started(c, text)).started == text,
        actor_of(with_handle(c, text)).handle == text,
        actor_of(with_stopped(c, text)).stopped == text,
{
}

/// Law: within one slot the last write wins — setting a slot twice, in
/// either combination of entry points, leaves exactly the configuration the
/// second call alone would have left.
pub proof fn lemma_last_write_wins(c: Config, first: Seq<char>, last: Seq<char>)
    ensures
        with_started(with_started(c, first), last) == with_started(c, last),
        with_handle(with_handle(c, first), last) == with_handle(c, last),
        with_stopped(with_stopped(c, first), last) == with_stopped(c, last),
{
    assert(with_started(with_started(c, first), last) =~= with_started(c, last));
    assert(with_handle(with_handle(c, first), last) =~= with_handle(c, last));
    assert(with_stopped(with_stopped(c, first), last) =~= with_stopped(c, last));
}

/// Law: writes to distinct slots commute — each setter touches only its own
/// slot, so the order of a chain over distinct slots does not matter.
pub proof fn lemma_distinct_slots_commute(c: Config, a: Seq<char>, b: Seq<char>)
    ensures
        with_handle(with_started(c, a), b) == with_started(with_handle(c, b), a),
        with_stopped(with_started(c, a), b) == with_started(with_stopped(c, b), a),
        with_stopped(with_handle(c, a), b) == with_handle(with_stopped(c, b), a),
        with_routine(with_started(c, a)) == with_started(with_routine(c), a),
        with_routine(with_handle(c, a)) == with_handle(with_routine(c), a),
        with_routine(with_stopped(c, a)) == with_stopped(with_routine(c), a),
{
    assert(with_handle(with_started(c, a), b) =~= with_started(with_handle(c, b), a));
    assert(with_stopped(with_started(c, a), b) =~= with_started(with_stopped(c, b), a));
    assert(with_stopped(with_handle(c, a), b) =~= with_handle(with_stopped(c, b), a));
    assert(with_routine(with_started(c, a)) =~= with_started(with_routine(c), a));
    assert(with_routine(with_handle(c, a)) =~= with_handle(with_routine(c), a));
    assert(with_routine(with_stopped(c, a)) =~= with_stopped(with_routine(c), a));
}

/// Law: construction is deterministic in the configuration — identical
/// configurations describe the same acceptance outcome, the same actor
/// hooks, and the same rejection diagnostic.
pub proof fn lemma_identical_configs_build_alike(c1: Config, c2: Config)
    requires
        c1 == c2,
    ensures
        config_accepted(c1) == config_accepted(c2),
        actor_of(c1) == actor_of(c2),
        config_diag(c1) == config_diag(c2),
{
}

} // verus!
