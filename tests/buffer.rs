use ulua::buffer::{seek_position, BufferCursor, SeekError, SeekFrom};
use ulua::state::TypeKind;
use ulua::{Error, Lua, Marker, Value};

#[test]
fn buffer_cursor_reads_writes_and_seeks() {
    let mut lua = Lua::new();
    let b = lua.create_buffer(&[1u8, 2, 3, 4, 5]).unwrap();
    let mut cur = BufferCursor::new(b);
    assert_eq!(cur.read(&lua, 2).unwrap(), vec![1, 2]);
    assert_eq!(cur.position(), 2);
    assert_eq!(cur.write(&mut lua, &vec![9, 9, 9, 9, 9]).unwrap(), 3);
    assert_eq!(cur.position(), 5);
    assert_eq!(cur.read(&lua, 4).unwrap(), Vec::<u8>::new());
    assert_eq!(cur.seek(&lua, SeekFrom::Start(0)).unwrap(), 0);
    assert_eq!(cur.read(&lua, 10).unwrap(), vec![1, 2, 9, 9, 9]);
    assert_eq!(cur.seek(&lua, SeekFrom::End(-1)).unwrap(), 4);
    assert_eq!(cur.seek(&lua, SeekFrom::Current(-2)).unwrap(), 2);
    assert!(matches!(cur.seek(&lua, SeekFrom::Current(-3)), Err(Error::RuntimeError(_))));
    assert!(matches!(cur.seek(&lua, SeekFrom::End(1)), Err(Error::RuntimeError(_))));
    assert_eq!(cur.position(), 2);
}

#[test]
fn zeroed_buffer_and_lengths() {
    let mut lua = Lua::new();
    let b = lua.create_buffer_with_capacity(4).unwrap();
    assert_eq!(lua.buffer_len(&b).unwrap(), 4);
    assert_eq!(lua.buffer_read(&b, 0, 10).unwrap(), vec![0, 0, 0, 0]);
    assert_eq!(lua.buffer_write(&b, 3, &vec![7, 8]).unwrap(), 1);
    assert_eq!(lua.buffer_read(&b, 2, 2).unwrap(), vec![0, 7]);
    let t = lua.create_table().unwrap();
    let not_buffer = ulua::Buffer(t.0);
    assert!(matches!(lua.buffer_len(&not_buffer), Err(Error::RuntimeError(_))));
}

#[test]
fn seek_targets() {
    assert_eq!(seek_position(10, 3, SeekFrom::Start(10)), Ok(10));
    assert_eq!(seek_position(10, 3, SeekFrom::Start(11)), Err(SeekError::BeyondEnd));
    assert_eq!(seek_position(10, 3, SeekFrom::Current(-4)), Err(SeekError::Negative));
    assert_eq!(seek_position(10, 3, SeekFrom::End(-10)), Ok(0));
    assert_eq!(seek_position(10, 3, SeekFrom::Start(u64::MAX)), Err(SeekError::BeyondEnd));
}

#[test]
fn type_metatables() {
    let mut lua = Lua::new();
    let mt = lua.create_table().unwrap();
    let id = match lua.value(&mt.0).unwrap() {
        Value::Table(o) => o,
        _ => unreachable!(),
    };
    lua.set_type_metatable(TypeKind::Boolean, Some(&mt)).unwrap();
    assert_eq!(lua.type_metatable(TypeKind::Boolean), Some(id));
    assert_eq!(lua.type_metatable(TypeKind::String), None);
    let s = lua.create_string("not a table").unwrap();
    let fake = ulua::Table(s.0);
    assert!(matches!(
        lua.set_type_metatable(TypeKind::String, Some(&fake)),
        Err(Error::RuntimeError(_))
    ));
    lua.set_type_metatable(TypeKind::Boolean, None).unwrap();
    assert_eq!(lua.type_metatable(TypeKind::Boolean), None);
}

#[test]
fn yield_with_pushes_marker_value_and_count() {
    let mut lua = Lua::new();
    lua.yield_with(vec![]).unwrap();
    assert_eq!(
        lua.take_values(),
        vec![Value::Marker(Marker::Yield), Value::Nil, Value::Integer(0)]
    );
    lua.yield_with(vec![Value::Integer(9)]).unwrap();
    assert_eq!(
        lua.take_values(),
        vec![Value::Marker(Marker::Yield), Value::Integer(9), Value::Integer(1)]
    );
    lua.yield_with(vec![Value::Integer(1), Value::Integer(2)]).unwrap();
    let frame = lua.take_values();
    assert_eq!(frame.len(), 3);
    assert_eq!(frame[0], Value::Marker(Marker::Yield));
    assert!(matches!(frame[1], Value::Table(_)));
    assert_eq!(frame[2], Value::Integer(2));
    assert_eq!(lua.stack_top(), 0);
}

#[test]
fn sequences_hold_their_values() {
    let mut lua = Lua::new();
    let before = lua.used_memory();
    let t = lua.create_sequence_from(vec![Value::Integer(1), Value::Boolean(true)]).unwrap();
    // table 56 + two array slots of 16 + a reference slot of 16
    assert_eq!(lua.used_memory(), before + 56 + 32 + 16);
    let s = lua.create_string("kept").unwrap();
    let kept = lua.value(&s.0).unwrap();
    lua.drop_ref(s.0).unwrap();
    let t2 = lua.create_sequence_from(vec![kept.clone()]).unwrap();
    let used = lua.used_memory();
    lua.gc_collect().unwrap();
    // the string stays alive inside the sequence
    assert_eq!(lua.used_memory(), used);
    lua.drop_ref(t2.0).unwrap();
    lua.drop_ref(t.0).unwrap();
    lua.gc_collect().unwrap();
    // sequences are tables too: while any table holds the string it stays
    assert!(lua.used_memory() < used);
}

#[test]
fn creation_hook_refuses_recursion() {
    let mut lua = Lua::new();
    assert!(!lua.runs_creation_hook(2));
    lua.set_thread_creation_callback();
    assert!(lua.runs_creation_hook(2));
    assert!(!lua.runs_creation_hook(3));
}
