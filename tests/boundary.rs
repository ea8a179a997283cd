use ulua::callback::{
    callback_boundary, host_boundary, interrupt_action, may_run_shared_callback, script_catches,
    script_error, CallbackOutcome, Failure, HostOutcome, MutCallbackGuard,
};
use ulua::debug::line_number;
use ulua::error::{LUA_ERRERR, LUA_ERRMEM, LUA_ERRRUN, LUA_ERRSYNTAX};
use ulua::memory::MemoryState;
use ulua::suspend::{classify_resume, poll_pending, poll_step, yield_frame, AsyncStep, Poll, ResumeKind, ThreadPool};
use ulua::{DebugNames, DebugSource, DebugStack, Error, Marker, ObjectId, Value, VmState};

#[test]
fn callback_outcomes_cross_the_boundary() {
    assert_eq!(callback_boundary(CallbackOutcome::Returned(2)), Ok(2));
    assert_eq!(
        callback_boundary(CallbackOutcome::Failed(Error::RuntimeError("e".to_string()))),
        Err(Failure::Error(Error::RuntimeError("e".to_string())))
    );
    assert_eq!(
        callback_boundary(CallbackOutcome::Panicked("boom".to_string())),
        Err(Failure::Panic("boom".to_string()))
    );
}

#[test]
fn panics_are_caught_only_when_configured() {
    let p = Failure::Panic("boom".to_string());
    let e = Failure::Error(Error::MemoryError("m".to_string()));
    assert!(script_catches(&e, false));
    assert!(script_catches(&p, true));
    assert!(!script_catches(&p, false));
    assert_eq!(script_error(p), Error::RuntimeError("boom".to_string()));
    assert_eq!(
        host_boundary(Failure::Panic("x".to_string())),
        HostOutcome::ResumePanic("x".to_string())
    );
    assert_eq!(
        host_boundary(Failure::Error(Error::RecursiveMutCallback)),
        HostOutcome::Error(Error::RecursiveMutCallback)
    );
}

#[test]
fn recursion_guards() {
    assert!(may_run_shared_callback(2));
    assert!(!may_run_shared_callback(3));
    assert_eq!(interrupt_action(2, VmState::Yield, true), VmState::Yield);
    assert_eq!(interrupt_action(2, VmState::Yield, false), VmState::Continue);
    assert_eq!(interrupt_action(3, VmState::Yield, true), VmState::Continue);
    let mut g = MutCallbackGuard::new();
    assert_eq!(g.enter(), Ok(()));
    assert_eq!(g.enter(), Err(Error::RecursiveMutCallback));
    g.leave();
    assert_eq!(g.enter(), Ok(()));
}

#[test]
fn status_codes_map_to_error_kinds() {
    assert_eq!(Error::from_status(LUA_ERRMEM, "m".to_string()), Error::MemoryError("m".to_string()));
    assert_eq!(Error::from_status(LUA_ERRSYNTAX, "s".to_string()), Error::SyntaxError("s".to_string()));
    assert_eq!(Error::from_status(LUA_ERRRUN, "r".to_string()), Error::RuntimeError("r".to_string()));
    assert_eq!(Error::from_status(LUA_ERRERR, "h".to_string()), Error::RuntimeError("h".to_string()));
    assert!(Error::from_status(LUA_ERRMEM, String::new()).is_memory_error());
    assert_eq!(Error::runtime("x"), Error::RuntimeError("x".to_string()));
}

#[test]
fn allocator_hook_accounting() {
    let mut m = MemoryState::new();
    assert!(m.allocate(100));
    assert!(m.realloc(true, 100, 300));
    assert_eq!(m.used_memory(), 300);
    m.set_memory_limit(350);
    assert!(!m.realloc(true, 300, 400));
    assert_eq!(m.used_memory(), 300);
    assert!(m.realloc(true, 300, 0));
    assert_eq!(m.used_memory(), 0);
    assert!(!m.unlikely_memory_error());
    assert!(!m.allocate(usize::MAX));
}

#[test]
fn suspension_markers() {
    assert_eq!(poll_step(Poll::Pending), AsyncStep::YieldPending);
    assert_eq!(poll_step(Poll::Ready(Ok(3))), AsyncStep::Return(3));
    assert_eq!(
        poll_step(Poll::Ready(Err(Error::RecursiveMutCallback))),
        AsyncStep::Raise(Error::RecursiveMutCallback)
    );
    assert_eq!(classify_resume(&vec![poll_pending()]), ResumeKind::Pending);
    let frame = yield_frame(Value::Integer(7), 1);
    assert_eq!(frame, vec![Value::Marker(Marker::Yield), Value::Integer(7), Value::Integer(1)]);
    assert_eq!(classify_resume(&frame), ResumeKind::Yielded(1));
    assert_eq!(
        classify_resume(&vec![Value::Marker(Marker::Yield), Value::Nil]),
        ResumeKind::Finished(2)
    );
    assert_eq!(classify_resume(&vec![Value::Marker(Marker::Terminate)]), ResumeKind::Terminated);
    assert_eq!(classify_resume(&vec![Value::Integer(1)]), ResumeKind::Finished(1));
    assert_eq!(classify_resume(&vec![]), ResumeKind::Finished(0));
}

#[test]
fn thread_pool_keeps_up_to_capacity() {
    let mut pool = ThreadPool::new(2);
    assert!(pool.recycle(ObjectId(1)));
    assert!(pool.recycle(ObjectId(2)));
    assert!(!pool.recycle(ObjectId(3)));
    assert_eq!(pool.len(), 2);
    assert_eq!(pool.take(), Some(ObjectId(2)));
    assert_eq!(pool.take(), Some(ObjectId(1)));
    assert_eq!(pool.take(), None);
}

#[test]
fn debug_records() {
    assert_eq!(line_number(-1), None);
    assert_eq!(line_number(12), Some(12));
    let s = DebugSource::from_record(None, Some("x".to_string()), -1, None);
    assert_eq!(s.what, "main");
    assert_eq!(s.line_defined, None);
    let s = DebugSource::from_record(None, None, 3, Some("Lua".to_string()));
    assert_eq!(s.what, "Lua");
    assert_eq!(s.line_defined, Some(3));
    let n = DebugNames::from_record(Some("f".to_string()));
    assert_eq!(n.name_what, None);
    let st = DebugStack::from_record(1, 2, 1);
    assert!(st.is_vararg);
    assert_eq!(st.num_params, 2);
}
