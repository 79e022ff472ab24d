//! The scriptable actor and its fallible constructor.
//!
//! [`LuaActor::new`] is the terminal step of the construction protocol: it
//! creates a fresh engine, compiles the three hook sources (substituting the
//! no-op default for an absent one), then gives the optional initialization
//! routine its single chance to set the engine up.  Construction is
//! all-or-nothing: either a ready actor comes back, or a [`BuildError`]
//! saying which of the two failure classes occurred.

use vstd::prelude::*;

use crate::engine::{
    check_script, describe_error, lua_parse_diag, lua_parses, new_vm, noop_script,
    noop_script_text,
};

verus! {

/// A routine run exactly once during construction, with access to the fresh
/// engine instance, before any lifecycle hook executes.  It may register host
/// values and functions into the engine's global namespace, and reports a
/// recoverable engine error when that registration fails.
pub trait InitializeVm {
    fn initialize(&self, vm: &rlua::Lua) -> Result<(), rlua::Error>;
}

/// The ready-made routine that performs no setup and always succeeds.  A
/// builder that was never given a routine carries this type in its slot.
pub struct NoInit;

impl InitializeVm for NoInit {
    fn initialize(&self, _vm: &rlua::Lua) -> Result<(), rlua::Error> {
        Ok(())
    }
}

/// Why construction failed.  No partial actor accompanies either variant.
pub enum BuildError {
    /// A hook's script text failed to compile; carries the engine's
    /// diagnostic for the first slot (in started, handle, stopped order)
    /// whose text was rejected.
    Script(String),
    /// The initialization routine reported failure; carries its error
    /// verbatim.
    Init(rlua::Error),
}

impl BuildError {
    /// The human-readable diagnostic this error carries.
    pub fn message(&self) -> (r: String)
        ensures
            self matches BuildError::Script(m) ==> r@ == m@,
    {
        match self {
            BuildError::Script(m) => m.clone(),
            BuildError::Init(e) => describe_error(e),
        }
    }
}

/// What a built actor looks like in contracts: the text of its three hooks.
/// The engine instance itself stays opaque.
#[verifier::ext_equal]
pub ghost struct ActorView {
    pub started: Seq<char>,
    pub handle: Seq<char>,
    pub stopped: Seq<char>,
}

/// The actor: the engine instance the initialization routine ran against,
/// and the three hook bodies the runtime will execute against that same
/// instance.
pub struct LuaActor {
    vm: rlua::Lua,
    started: String,
    handle: String,
    stopped: String,
}

impl View for LuaActor {
    type V = ActorView;

    closed spec fn view(&self) -> ActorView {
        ActorView { started: self.started@, handle: self.handle@, stopped: self.stopped@ }
    }
}

/// The text a hook source resolves to: the text itself, or the no-op default
/// when the source is absent.
pub open spec fn resolved(src: Option<String>) -> Seq<char> {
    match src {
        Some(text) => text@,
        None => noop_script(),
    }
}

/// Whether the engine accepts all three resolved hook sources.
pub open spec fn hooks_accepted(s: Seq<char>, h: Seq<char>, st: Seq<char>) -> bool {
    lua_parses(s) && lua_parses(h) && lua_parses(st)
}

/// The diagnostic construction reports when some hook is rejected: that of
/// the first rejected slot, in started, handle, stopped order.
pub open spec fn first_rejected_diag(s: Seq<char>, h: Seq<char>, st: Seq<char>) -> Seq<char> {
    if !lua_parses(s) {
        lua_parse_diag(s)
    } else if !lua_parses(h) {
        lua_parse_diag(h)
    } else {
        lua_parse_diag(st)
    }
}

/// The resolved hook source as an owned value.
fn resolve_text(src: Option<String>) -> (r: String)
    ensures
        r@ == resolved(src),
{
    match src {
        Some(text) => text,
        None => noop_script_text(),
    }
}

impl LuaActor {
    /// Builds an actor from the three hook sources and the optional
    /// initialization routine.  An absent source is substituted by the no-op
    /// default.  Fails when a hook's text does not compile (reporting the
    /// first rejected slot's diagnostic) or, all hooks compiling, when the
    /// routine reports failure (reporting that error verbatim).
    pub fn new<I: InitializeVm>(
        started: Option<String>,
        handle: Option<String>,
        stopped: Option<String>,
        initialize_vm: Option<I>,
    ) -> (r: Result<LuaActor, BuildError>)
        ensures
            r matches Ok(a) ==> hooks_accepted(resolved(started), resolved(handle), resolved(stopped))
                && a@ == (ActorView {
                started: resolved(started),
                handle: resolved(handle),
                stopped: resolved(stopped),
            }),
            !hooks_accepted(resolved(started), resolved(handle), resolved(stopped)) ==> (
            r matches Err(e) && e matches BuildError::Script(m) && m@ == first_rejected_diag(
                resolved(started),
                resolved(handle),
                resolved(stopped),
            )),
            r matches Err(e) && e is Script ==> !hooks_accepted(
                resolved(started),
                resolved(handle),
                resolved(stopped),
            ),
            r matches Err(e) && e is Init ==> hooks_accepted(
                resolved(started),
                resolved(handle),
                resolved(stopped),
            ) && initialize_vm is Some,
            hooks_accepted(resolved(started), resolved(handle), resolved(stopped))
                && initialize_vm is None ==> r is Ok,
            resolved(started) == noop_script() && resolved(handle) == noop_script() && resolved(
                stopped,
            ) == noop_script() && initialize_vm is None ==> r is Ok,
    {
        let started_text = resolve_text(started);
        let handle_text = resolve_text(handle);
        let stopped_text = resolve_text(stopped);
        let vm = new_vm();
        if let Err(m) = check_script(&vm, started_text.as_str()) {
            return Err(BuildError::Script(m));
        }
        if let Err(m) = check_script(&vm, handle_text.as_str()) {
            return Err(BuildError::Script(m));
        }
        if let Err(m) = check_script(&vm, stopped_text.as_str()) {
            return Err(BuildError::Script(m));
        }
        let outcome: Result<(), rlua::Error> = match &initialize_vm {
            Some(routine) => routine.initialize(&vm),
            None => Ok(()),
        };
        LuaActor::assemble(vm, started_text, handle_text, stopped_text, outcome)
    }

    /// Completes construction from the initialization routine's reported
    /// outcome: a success yields the actor owning the given engine instance
    /// and hook texts, and a reported error fails construction with exactly
    /// that error.
    pub fn assemble(
        vm: rlua::Lua,
        started: String,
        handle: String,
        stopped: String,
        init_outcome: Result<(), rlua::Error>,
    ) -> (r: Result<LuaActor, BuildError>)
        ensures
            init_outcome is Ok ==> (r matches Ok(a) && a@ == (ActorView {
                started: started@,
                handle: handle@,
                stopped: stopped@,
            })),
            init_outcome matches Err(e) ==> (r matches Err(be) && be matches BuildError::Init(e2)
                && e2 == e),
    {
        match init_outcome {
            Ok(()) => Ok(LuaActor { vm, started, handle, stopped }),
            Err(e) => Err(BuildError::Init(e)),
        }
    }

    /// The `started` hook's script text, verbatim.
    pub fn started_script(&self) -> (r: &str)
        ensures
            r@ == self@.started,
    {
        self.started.as_str()
    }

    /// The `handle` hook's script text, verbatim.
    pub fn handle_script(&self) -> (r: &str)
        ensures
            r@ == self@.handle,
    {
        self.handle.as_str()
    }

    /// The `stopped` hook's script text, verbatim.
    pub fn stopped_script(&self) -> (r: &str)
        ensures
            r@ == self@.stopped,
    {
        self.stopped.as_str()
    }
}

} // verus!
