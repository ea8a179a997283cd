use ulua::{Error, GCMode, Lua, Value};

#[test]
fn test_memory_limit() {
    let mut lua = Lua::new();

    let initial_memory = lua.used_memory();
    assert!(
        initial_memory > 0,
        "used_memory reporting is wrong, lua uses memory for stdlib"
    );

    let t = lua.create_table_with_capacity(10000, 0).expect("should trigger no memory limit");
    lua.drop_ref(t.0).unwrap();
    lua.gc_collect().unwrap();

    lua.set_memory_limit(initial_memory + 10000).unwrap();
    match lua.create_table_with_capacity(10000, 0) {
        Err(Error::MemoryError(_)) => {}
        something_else => panic!("did not trigger memory error: {:?}", something_else),
    };

    lua.set_memory_limit(0).unwrap();
    lua.create_table_with_capacity(10000, 0).expect("should trigger no memory limit");

    lua.set_memory_limit(1024).unwrap();
    match lua.create_table_with_capacity(10000, 0) {
        Err(Error::MemoryError(_)) => {}
        _ => panic!("did not trigger memory error"),
    };
}

#[test]
fn test_memory_limit_thread() {
    let mut lua = Lua::new();
    let _thread = lua.create_thread().unwrap();
    let used = lua.used_memory();
    lua.set_memory_limit(used + 10000).unwrap();
    match lua.create_table_with_capacity(10000, 0) {
        Err(Error::MemoryError(_)) => {}
        something_else => panic!("did not trigger memory error: {:?}", something_else),
    };
}

#[test]
fn test_gc_control() {
    let mut lua = Lua::new();

    assert!(lua.gc_is_running());
    lua.gc_stop();
    assert!(!lua.gc_is_running());
    lua.gc_restart();
    assert!(lua.gc_is_running());

    assert_eq!(lua.gc_inc(200, 100, 13), GCMode::Incremental);

    let before = lua.used_memory();
    let t = lua.create_table().unwrap();
    let userdata = lua.value(&t.0).unwrap();
    lua.set_global("userdata", userdata);
    lua.drop_ref(t.0).unwrap();
    lua.gc_collect().unwrap();
    // still reachable through the globals: table 56 + reference slot 16
    assert_eq!(lua.used_memory(), before + 56 + 16);
    lua.set_global("userdata", Value::Nil);

    lua.gc_collect().unwrap();
    lua.gc_collect().unwrap();
    // the table is gone; the reference table keeps its grown slot
    assert_eq!(lua.used_memory(), before + 16);
}

#[test]
fn limit_below_usage_fails_next_allocation_and_keeps_usage() {
    let mut lua = Lua::new();
    let used = lua.used_memory();
    assert_eq!(lua.set_memory_limit(used - 1).unwrap(), 0);
    assert!(matches!(lua.create_table(), Err(Error::MemoryError(_))));
    assert!(matches!(lua.create_string("x"), Err(Error::MemoryError(_))));
    assert_eq!(lua.used_memory(), used);
}

#[test]
fn set_memory_limit_returns_previous_limit() {
    let mut lua = Lua::new();
    assert_eq!(lua.set_memory_limit(5000).unwrap(), 0);
    assert_eq!(lua.set_memory_limit(7000).unwrap(), 5000);
    assert_eq!(lua.set_memory_limit(0).unwrap(), 7000);
}

#[test]
fn memory_scenario_limit_then_unlimited() {
    let mut lua = Lua::new();
    let initial = lua.used_memory();
    lua.set_memory_limit(initial + 10000).unwrap();
    assert!(matches!(
        lua.create_table_with_capacity(10000, 0),
        Err(Error::MemoryError(_))
    ));
    assert_eq!(lua.used_memory(), initial);
    lua.set_memory_limit(0).unwrap();
    assert!(lua.create_table_with_capacity(10000, 0).is_ok());
}

#[test]
fn table_allocation_is_accounted_exactly() {
    let mut lua = Lua::new();
    assert_eq!(lua.used_memory(), 4096);
    let _t = lua.create_table_with_capacity(2, 3).unwrap();
    // table header 56 + 2 array slots of 16 + 3 nodes of 32 + a new reference slot of 16
    assert_eq!(lua.used_memory(), 4096 + 56 + 32 + 96 + 16);
}

#[test]
fn reference_slot_is_reused_without_new_memory() {
    let mut lua = Lua::new();
    let t = lua.create_table().unwrap();
    let after_first = lua.used_memory();
    lua.drop_ref(t.0).unwrap();
    let _s = lua.create_string("abc").unwrap();
    assert_eq!(lua.used_memory(), after_first + 24 + 3);
}

#[test]
fn table_overflow_is_a_runtime_error() {
    let mut lua = Lua::new();
    assert!(matches!(
        lua.create_table_with_capacity(0x0400_0001, 0),
        Err(Error::RuntimeError(_))
    ));
}

#[test]
fn gc_settings_return_previous_values() {
    let mut lua = Lua::new();
    assert_eq!(lua.gc_set_pause(150), 200);
    assert_eq!(lua.gc_set_pause(120), 150);
    assert_eq!(lua.gc_set_step_multiplier(300), 200);
    assert_eq!(lua.gc_inc(0, 0, 0), GCMode::Incremental);
    assert_eq!(lua.gc_set_pause(1), 120);
    assert_eq!(lua.gc_step(), Ok(true));
}

#[test]
fn unmanaged_instance_has_no_memory_control() {
    let mut lua = Lua::new_unmanaged(ulua::StdLib::all_safe(), ulua::LuaOptions::new());
    assert_eq!(lua.set_memory_limit(1000), Err(Error::MemoryControlNotAvailable));
    assert!(lua.used_memory() > 0);
    assert!(lua.create_table_with_capacity(10000, 0).is_ok());
}

#[test]
fn collection_frees_only_unreachable_objects() {
    let mut lua = Lua::new();
    let base = lua.used_memory();
    let a = lua.create_table().unwrap();
    let b = lua.create_string("hello").unwrap();
    let kept = lua.value(&b.0).unwrap();
    let key = lua.create_registry_value(kept).unwrap();
    lua.drop_ref(a.0).unwrap();
    lua.drop_ref(b.0).unwrap();
    let before = lua.used_memory();
    assert_eq!(lua.gc_step(), Ok(true));
    // the table (56) is freed; the string is kept alive by the registry
    assert_eq!(lua.used_memory(), before - 56);
    lua.remove_registry_value(key).unwrap();
    lua.gc_collect().unwrap();
    // two reference slots and one registry slot stay allocated
    assert_eq!(lua.used_memory(), base + 16 + 16 + 16);
}
