use ulua::lock::LockOutcome;
use ulua::{Error, LightUserData, Lua, LuaOptions, StdLib, Value, VmState};

#[test]
fn sandbox_is_idempotent_and_restores_globals() {
    let mut lua = Lua::new();
    lua.set_global("var", Value::Integer(1));
    lua.sandbox(true).unwrap();
    lua.sandbox(true).unwrap();
    assert!(lua.is_sandbox_enabled());
    assert_eq!(lua.get_global("var"), Value::Integer(1));
    lua.set_global("var", Value::Integer(123));
    lua.set_global("fresh", Value::Boolean(true));
    assert_eq!(lua.get_global("var"), Value::Integer(123));
    assert_eq!(lua.get_global("fresh"), Value::Boolean(true));
    lua.sandbox(false).unwrap();
    assert!(!lua.is_sandbox_enabled());
    assert_eq!(lua.get_global("var"), Value::Integer(1));
    assert_eq!(lua.get_global("fresh"), Value::Nil);
}

#[test]
fn set_globals_refused_in_sandbox() {
    let mut lua = Lua::new();
    let t = lua.create_table().unwrap();
    lua.sandbox(true).unwrap();
    assert_eq!(
        lua.set_globals(&t),
        Err(Error::RuntimeError("cannot change globals in a sandboxed Lua state".to_string()))
    );
    lua.sandbox(false).unwrap();
    lua.set_globals(&t).unwrap();
}

#[test]
fn set_globals_switches_tables() {
    let mut lua = Lua::new();
    lua.set_global("x", Value::Integer(5));
    let g = lua.globals().unwrap();
    let t = lua.create_table().unwrap();
    lua.set_globals(&t).unwrap();
    assert_eq!(lua.get_global("x"), Value::Nil);
    lua.set_global("y", Value::Integer(6));
    lua.set_globals(&g).unwrap();
    assert_eq!(lua.get_global("x"), Value::Integer(5));
    assert_eq!(lua.get_global("y"), Value::Nil);
    lua.set_globals(&t).unwrap();
    assert_eq!(lua.get_global("y"), Value::Integer(6));
    let s = lua.create_string("not a table").unwrap();
    assert!(matches!(lua.set_globals(&ulua::Table(s.0)), Err(Error::RuntimeError(_))));
}

#[test]
fn set_globals_rejects_foreign_tables() {
    let mut a = Lua::new();
    let mut b = Lua::new();
    b.set_global("x", Value::Integer(1));
    let t = a.create_table().unwrap();
    assert_eq!(b.set_globals(&t), Err(Error::MismatchedRegistryKey));
    assert_eq!(b.get_global("x"), Value::Integer(1));
}

#[test]
fn thread_collection_callback_fires_once() {
    let mut lua = Lua::new();
    lua.set_thread_collection_callback();
    let thread = lua.create_thread().unwrap();
    let id = match lua.value(&thread.0).unwrap() {
        Value::Thread(o) => o.0 as usize,
        other => panic!("not a thread: {:?}", other),
    };
    lua.gc_collect().unwrap();
    assert!(lua.take_collected_threads().is_empty());
    lua.drop_ref(thread.0).unwrap();
    lua.gc_collect().unwrap();
    let mut fired = Vec::new();
    for ud in lua.take_collected_threads() {
        assert!(lua.running_gc());
        fired.push(ud);
    }
    lua.finish_collection_callback();
    assert!(!lua.running_gc());
    lua.gc_collect().unwrap();
    assert!(lua.take_collected_threads().is_empty());
    assert_eq!(fired, vec![LightUserData(id)]);
}

#[test]
fn thread_collection_without_callback_reports_nothing() {
    let mut lua = Lua::new();
    let thread = lua.create_thread().unwrap();
    lua.drop_ref(thread.0).unwrap();
    lua.gc_collect().unwrap();
    assert!(lua.take_collected_threads().is_empty());
    lua.set_thread_collection_callback();
    lua.remove_thread_callbacks();
    let thread = lua.create_thread().unwrap();
    lua.drop_ref(thread.0).unwrap();
    lua.gc_collect().unwrap();
    assert!(lua.take_collected_threads().is_empty());
    assert!(!lua.running_gc());
}

#[test]
fn reentrant_lock_restores_stack_top() {
    let mut lua = Lua::new();
    assert_eq!(lua.lock(1), LockOutcome::Acquired);
    let outer = lua.stack_guard();
    lua.push(Value::Integer(1)).unwrap();
    lua.push(Value::Integer(2)).unwrap();
    let top_before_callback = lua.stack_top();

    // a callback invoked by the VM enters again
    assert_eq!(lua.lock(1), LockOutcome::Reentered);
    let inner = lua.stack_guard();
    lua.push(Value::Integer(3)).unwrap();
    lua.push(Value::Integer(4)).unwrap();
    lua.push(Value::Integer(5)).unwrap();
    assert_eq!(lua.lock(2), LockOutcome::Busy);
    lua.restore(inner);
    lua.unlock(1);
    assert_eq!(lua.stack_top(), top_before_callback);

    lua.restore(outer);
    lua.unlock(1);
    assert_eq!(lua.stack_top(), 0);
    assert_eq!(lua.lock(2), LockOutcome::Acquired);
}

#[test]
fn pop_ref_moves_top_value_into_a_handle() {
    let mut lua = Lua::new();
    lua.push(Value::Integer(9)).unwrap();
    let h = lua.pop_ref().unwrap();
    assert_eq!(lua.stack_top(), 0);
    assert_eq!(lua.value(&h).unwrap(), Value::Integer(9));
}

#[test]
fn options_builders() {
    let o = LuaOptions::new();
    assert!(o.catch_rust_panics);
    assert_eq!(o.thread_pool_size, 0);
    let o = o.catch_rust_panics(false).thread_pool_size(8);
    assert!(!o.catch_rust_panics);
    assert_eq!(o.thread_pool_size, 8);
    let d = LuaOptions::default();
    assert!(d.catch_rust_panics);
}

#[test]
fn stdlib_flags() {
    let libs = StdLib::math() | StdLib::string();
    assert!(libs.contains(StdLib::math()));
    assert!(!libs.contains(StdLib::table()));
    assert_eq!((libs & StdLib::string()).0, 16);
    assert_eq!((libs ^ StdLib::math()).0, 16);
    let mut l = StdLib::none();
    l |= StdLib::debug();
    assert_eq!(l.0, 0x8000_0000);
    l &= StdLib::all();
    assert_eq!(l.0, 0x8000_0000);
    l ^= StdLib::debug();
    assert_eq!(l, StdLib::none());
    assert!(StdLib::all_safe().contains(StdLib::buffer()));
}

#[test]
fn strings_and_buffers() {
    let mut lua = Lua::new();
    let s = lua.create_string("hi").unwrap();
    assert_eq!(lua.value(&s.0).unwrap(), Value::String("hi".to_string()));
    let b = lua.create_buffer_with_capacity(8).unwrap();
    assert!(matches!(lua.value(&b.0).unwrap(), Value::Buffer(_)));
    assert!(matches!(
        lua.create_buffer_with_capacity(0x4000_0001),
        Err(Error::RuntimeError(_))
    ));
}

#[test]
fn memory_control_and_jit() {
    let mut lua = Lua::new_with(StdLib::none(), LuaOptions::new());
    lua.enable_jit(false);
    assert_eq!(lua.set_memory_limit(10).unwrap(), 0);
}

#[test]
fn mutable_function_refuses_reentry() {
    let mut lua = Lua::new();
    let f = lua.create_function_mut().unwrap();
    let g = lua.create_function().unwrap();
    assert_eq!(lua.enter_function(&f), Ok(()));
    assert_eq!(lua.enter_function(&f), Err(Error::RecursiveMutCallback));
    assert_eq!(lua.enter_function(&g), Ok(()));
    assert_eq!(lua.enter_function(&g), Ok(()));
    lua.leave_function(&f).unwrap();
    assert_eq!(lua.enter_function(&f), Ok(()));
    lua.leave_function(&f).unwrap();
    assert!(matches!(lua.value(&f.0).unwrap(), Value::Function(_)));
    let t = lua.create_table().unwrap();
    let not_fn = ulua::Function(t.0);
    assert!(matches!(lua.enter_function(&not_fn), Err(Error::RuntimeError(_))));
}

#[test]
fn interrupt_decisions() {
    let mut lua = Lua::new();
    assert_eq!(lua.interrupt_action(-1, 2, VmState::Yield, true), VmState::Continue);
    lua.set_interrupt();
    assert_eq!(lua.interrupt_action(-1, 2, VmState::Yield, true), VmState::Yield);
    assert_eq!(lua.interrupt_action(0, 2, VmState::Yield, true), VmState::Continue);
    assert_eq!(lua.interrupt_action(-1, 2, VmState::Yield, false), VmState::Continue);
    lua.remove_interrupt();
    assert_eq!(lua.interrupt_action(-1, 2, VmState::Yield, true), VmState::Continue);
}

#[test]
fn coroutines_are_pooled_up_to_the_configured_size() {
    let mut lua = Lua::new_with(StdLib::all_safe(), LuaOptions::new().thread_pool_size(1));
    let a = lua.create_recycled_thread().unwrap();
    let a_id = lua.value(&a.0).unwrap();
    let b = lua.create_recycled_thread().unwrap();
    assert_ne!(lua.value(&b.0).unwrap(), a_id);
    assert_eq!(lua.recycle_thread(a), Ok(true));
    assert_eq!(lua.recycle_thread(b), Ok(false));
    let c = lua.create_recycled_thread().unwrap();
    assert_eq!(lua.value(&c.0).unwrap(), a_id);
    let t = lua.create_table().unwrap();
    assert!(matches!(lua.recycle_thread(ulua::Thread(t.0)), Err(Error::RuntimeError(_))));
}

#[test]
fn no_pool_by_default() {
    let mut lua = Lua::new();
    let a = lua.create_recycled_thread().unwrap();
    assert_eq!(lua.recycle_thread(a), Ok(false));
}

#[test]
fn current_thread_is_the_main_coroutine() {
    let mut lua = Lua::new();
    let t = lua.current_thread().unwrap();
    assert_eq!(lua.value(&t.0).unwrap(), Value::Thread(ulua::ObjectId(0)));
    let u = lua.create_thread().unwrap();
    assert_ne!(lua.value(&u.0).unwrap(), Value::Thread(ulua::ObjectId(0)));
    lua.drop_ref(t.0).unwrap();
    lua.gc_collect().unwrap();
    let t = lua.current_thread().unwrap();
    assert_eq!(lua.value(&t.0).unwrap(), Value::Thread(ulua::ObjectId(0)));
}

#[test]
fn pcall_follows_the_panic_option() {
    let p = ulua::callback::Failure::Panic("boom".to_string());
    let e = ulua::callback::Failure::Error(Error::RuntimeError("e".to_string()));
    let lua = Lua::new();
    assert!(lua.pcall_catches(&p));
    assert!(lua.pcall_catches(&e));
    let strict = Lua::new_with(StdLib::all_safe(), LuaOptions::new().catch_rust_panics(false));
    assert!(!strict.pcall_catches(&p));
    assert!(strict.pcall_catches(&e));
}
