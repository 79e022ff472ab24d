use lua_actor::{BuildError, InitializeVm, LuaActorBuilder, NoInit};

/// A routine that reports failure without touching the engine.
struct FailingInit;

impl InitializeVm for FailingInit {
    fn initialize(&self, _vm: &rlua::Lua) -> Result<(), rlua::Error> {
        Err(rlua::Error::RuntimeError("boom".to_string()))
    }
}

/// A routine that registers a host value into the engine's globals.
struct RegisterGlobal;

impl InitializeVm for RegisterGlobal {
    fn initialize(&self, vm: &rlua::Lua) -> Result<(), rlua::Error> {
        vm.globals().set("answer", 42)
    }
}

#[test]
fn build_script_error() {
    let res = LuaActorBuilder::new().on_handle_with_lua(r"return 1 +").build();

    if let Err(e) = res {
        assert!(matches!(e, BuildError::Script(_)));
        assert!(e.message().contains("unexpected symbol"));
    } else {
        panic!("should return error");
    }
}

#[test]
fn default_build_succeeds() {
    match LuaActorBuilder::new().build() {
        Ok(actor) => {
            assert_eq!(actor.started_script(), "return");
            assert_eq!(actor.handle_script(), "return");
            assert_eq!(actor.stopped_script(), "return");
        }
        Err(e) => panic!("default build failed: {}", e.message()),
    }
}

#[test]
fn inline_text_used_verbatim() {
    match LuaActorBuilder::new().on_handle_with_lua("return 2").build() {
        Ok(actor) => {
            assert_eq!(actor.handle_script(), "return 2");
            assert_eq!(actor.started_script(), "return");
            assert_eq!(actor.stopped_script(), "return");
        }
        Err(e) => panic!("build failed: {}", e.message()),
    }
}

#[test]
fn last_write_wins_per_slot() {
    match LuaActorBuilder::new()
        .on_started_with_lua("return 1")
        .on_started_with_lua("return 2")
        .build()
    {
        Ok(actor) => assert_eq!(actor.started_script(), "return 2"),
        Err(e) => panic!("build failed: {}", e.message()),
    }
}

#[test]
fn slot_writes_interleave_independently() {
    match LuaActorBuilder::new()
        .on_started_with_lua("return 1")
        .on_stopped_with_lua("return 3")
        .on_started_with_lua("return 2")
        .build()
    {
        Ok(actor) => {
            assert_eq!(actor.started_script(), "return 2");
            assert_eq!(actor.stopped_script(), "return 3");
        }
        Err(e) => panic!("build failed: {}", e.message()),
    }
}

#[test]
fn bad_started_script_rejected() {
    let res = LuaActorBuilder::new().on_started_with_lua("local = 3").build();

    assert!(matches!(res, Err(BuildError::Script(_))));
}

#[test]
fn empty_scripts_build() {
    let res = LuaActorBuilder::new()
        .on_started_with_lua("return")
        .on_handle_with_lua("return")
        .on_stopped_with_lua("return")
        .build();

    assert!(res.is_ok());
}

#[test]
fn failing_init_routine_fails_build() {
    let res = LuaActorBuilder::new()
        .on_started_with_lua("return 1")
        .on_handle_with_lua("return 2")
        .on_stopped_with_lua("return 3")
        .with_vm(FailingInit)
        .build();

    if let Err(e) = res {
        assert!(matches!(e, BuildError::Init(_)));
        assert!(e.message().contains("boom"));
    } else {
        panic!("should return error");
    }
}

#[test]
fn init_routine_runs_against_fresh_engine() {
    let res = LuaActorBuilder::new().with_vm(RegisterGlobal).build();

    assert!(res.is_ok());
}

#[test]
fn last_routine_wins() {
    let res = LuaActorBuilder::new().with_vm(FailingInit).with_vm(RegisterGlobal).build();

    assert!(res.is_ok());
}

fn configured() -> LuaActorBuilder<NoInit> {
    LuaActorBuilder::new()
        .on_started_with_lua("return 10")
        .on_handle_with_lua("return 20")
        .on_stopped_with_lua("return 30")
}

#[test]
fn identical_configs_build_identical_actors() {
    match (configured().build(), configured().build()) {
        (Ok(a1), Ok(a2)) => {
            assert_eq!(a1.started_script(), a2.started_script());
            assert_eq!(a1.handle_script(), a2.handle_script());
            assert_eq!(a1.stopped_script(), a2.stopped_script());
        }
        _ => panic!("both identically configured builds should succeed"),
    }
}
