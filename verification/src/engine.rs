//! The boundary to the embedded Lua engine.
//!
//! Everything the library needs from rlua passes through the few items here:
//! the engine's two types are declared opaque, and each call the construction
//! protocol makes stands in one wrapper whose contract states what the call's
//! own documentation promises.

use vstd::prelude::*;

verus! {

/// Declares rlua's `Lua`, the embedded engine state, so that it can stand in
/// signatures and fields.  Its contents stay opaque to verification.
#[verifier::external_type_specification]
#[verifier::external_body]
pub struct ExLua(rlua::Lua);

/// Declares rlua's `Error`, the engine's error value, so that it can be
/// carried through signatures and fields.  It stays opaque to verification.
#[verifier::external_type_specification]
#[verifier::external_body]
pub struct ExLuaError(rlua::Error);

/// Whether the engine accepts `s` as a well-formed Lua chunk.  The grammar is
/// the engine's own; only the trusted wrapper below says anything about it.
pub uninterp spec fn lua_parses(s: Seq<char>) -> bool;

/// The diagnostic the engine reports for a chunk it does not accept.
pub uninterp spec fn lua_parse_diag(s: Seq<char>) -> Seq<char>;

/// The no-op script: a hook with this body runs no statement and returns no
/// value.  Every hook slot defaults to it.
pub open spec fn noop_script() -> Seq<char> {
    "return"@
}

/// The no-op script as an owned value.
pub fn noop_script_text() -> (r: String)
    ensures
        r@ == noop_script(),
{
    "return".to_owned()
}

/// Relies on rlua's `Lua::new`: creates a fresh engine instance loaded with
/// the safe standard libraries.  Nothing is assumed about the fresh state.
#[verifier::external_body]
pub(crate) fn new_vm() -> rlua::Lua {
    rlua::Lua::new()
}

/// Relies on rlua's `Lua::load` and `Chunk::into_function`, which compiles
/// the chunk without executing it: compilation succeeds exactly when the text
/// is a well-formed Lua chunk, and the outcome and diagnostic are functions
/// of the text alone.  A bare `return` chunk is well-formed Lua.
#[verifier::external_body]
pub(crate) fn check_script(vm: &rlua::Lua, script: &str) -> (r: Result<(), String>)
    ensures
        r is Ok <==> lua_parses(script@),
        script@ == noop_script() ==> r is Ok,
        r matches Err(m) ==> m@ == lua_parse_diag(script@),
{
    match vm.load(script).into_function() {
        Ok(_) => Ok(()),
        Err(e) => Err(format!("{}", e)),
    }
}

/// Relies on rlua's `Display` impl for `Error` to render the diagnostic an
/// engine error carries.  Nothing is assumed about the rendered text.
#[verifier::external_body]
pub(crate) fn describe_error(e: &rlua::Error) -> String {
    format!("{}", e)
}

} // verus!
