use ulua::{Error, Lua, Value};

#[test]
fn registry_round_trip_for_each_kind() {
    let mut lua = Lua::new();
    let table = lua.create_table().unwrap();
    let table_value = lua.value(&table.0).unwrap();
    let values = vec![
        Value::Nil,
        Value::Boolean(true),
        Value::Integer(-42),
        Value::String("hello".to_string()),
        table_value,
    ];
    for v in values {
        let key = lua.create_registry_value(v.clone()).unwrap();
        assert_eq!(lua.registry_value(&key).unwrap(), v);
    }
}

#[test]
fn nil_takes_no_slot() {
    let mut lua = Lua::new();
    let used = lua.used_memory();
    let key = lua.create_registry_value(Value::Nil).unwrap();
    assert!(key.is_nil());
    assert_eq!(key.id(), -1);
    assert_eq!(lua.used_memory(), used);
}

#[test]
fn live_keys_get_distinct_slots() {
    let mut lua = Lua::new();
    let mut keys = Vec::new();
    for i in 0..20 {
        keys.push(lua.create_registry_value(Value::Integer(i)).unwrap());
    }
    let removed = keys.remove(3);
    lua.remove_registry_value(removed).unwrap();
    let dropped = keys.remove(7);
    lua.drop_registry_key(dropped).unwrap();
    keys.push(lua.create_registry_value(Value::Integer(100)).unwrap());
    keys.push(lua.create_registry_value(Value::Integer(101)).unwrap());
    keys.push(lua.create_registry_value(Value::Integer(102)).unwrap());
    let mut ids: Vec<i32> = keys.iter().map(|k| k.id()).collect();
    ids.sort();
    ids.dedup();
    assert_eq!(ids.len(), keys.len());
    assert_eq!(lua.registry_value(&keys[0]).unwrap(), Value::Integer(0));
}

#[test]
fn dropped_key_slot_is_reused_first() {
    let mut lua = Lua::new();
    let a = lua.create_registry_value(Value::Integer(1)).unwrap();
    let b = lua.create_registry_value(Value::Integer(2)).unwrap();
    let c = lua.create_registry_value(Value::Integer(3)).unwrap();
    let a_id = a.id();
    let c_id = c.id();
    lua.remove_registry_value(a).unwrap();
    lua.drop_registry_key(c).unwrap();
    let d = lua.create_registry_value(Value::Integer(4)).unwrap();
    assert_eq!(d.id(), c_id);
    let e = lua.create_registry_value(Value::Integer(5)).unwrap();
    assert_eq!(e.id(), a_id);
    assert_eq!(lua.registry_value(&b).unwrap(), Value::Integer(2));
}

#[test]
fn expire_releases_dropped_slots() {
    let mut lua = Lua::new();
    let a = lua.create_registry_value(Value::Integer(1)).unwrap();
    let b = lua.create_registry_value(Value::Integer(2)).unwrap();
    let (a_id, b_id) = (a.id(), b.id());
    lua.drop_registry_key(a).unwrap();
    lua.drop_registry_key(b).unwrap();
    lua.expire_registry_values();
    let used = lua.used_memory();
    let c = lua.create_registry_value(Value::Boolean(false)).unwrap();
    assert_eq!(c.id(), b_id);
    let d = lua.create_registry_value(Value::Boolean(true)).unwrap();
    assert_eq!(d.id(), a_id);
    assert_eq!(lua.used_memory(), used);
}

#[test]
fn replace_moves_between_nil_and_slots() {
    let mut lua = Lua::new();
    let mut key = lua.create_registry_value(Value::Nil).unwrap();
    lua.replace_registry_value(&mut key, Value::Integer(7)).unwrap();
    assert!(!key.is_nil());
    assert_eq!(lua.registry_value(&key).unwrap(), Value::Integer(7));
    lua.replace_registry_value(&mut key, Value::Integer(8)).unwrap();
    assert_eq!(lua.registry_value(&key).unwrap(), Value::Integer(8));
    lua.replace_registry_value(&mut key, Value::Nil).unwrap();
    assert!(key.is_nil());
    assert_eq!(lua.registry_value(&key).unwrap(), Value::Nil);
}

#[test]
fn foreign_keys_are_rejected() {
    let mut a = Lua::new();
    let mut b = Lua::new();
    let key = a.create_registry_value(Value::Integer(1)).unwrap();
    let mut key2 = a.create_registry_value(Value::Integer(2)).unwrap();
    assert!(a.owns_registry_value(&key));
    assert!(!b.owns_registry_value(&key));
    assert_eq!(b.registry_value(&key), Err(Error::MismatchedRegistryKey));
    assert_eq!(
        b.replace_registry_value(&mut key2, Value::Integer(3)),
        Err(Error::MismatchedRegistryKey)
    );
    assert_eq!(b.remove_registry_value(key), Err(Error::MismatchedRegistryKey));
    assert_eq!(b.drop_registry_key(key2), Err(Error::MismatchedRegistryKey));
    let t = a.create_table().unwrap();
    assert_eq!(b.value(&t.0), Err(Error::MismatchedRegistryKey));
    assert_eq!(b.drop_ref(t.0), Err(Error::MismatchedRegistryKey));
}

#[test]
fn registry_slot_growth_fails_under_limit() {
    let mut lua = Lua::new();
    let used = lua.used_memory();
    lua.set_memory_limit(used + 8).unwrap();
    assert!(matches!(
        lua.create_registry_value(Value::Integer(1)),
        Err(Error::MemoryError(_))
    ));
    assert!(lua.create_registry_value(Value::Nil).is_ok());
}

#[test]
fn named_registry_values() {
    let mut lua = Lua::new();
    lua.set_named_registry_value("answer", Value::Integer(42)).unwrap();
    assert_eq!(lua.named_registry_value("answer").unwrap(), Value::Integer(42));
    assert_eq!(lua.named_registry_value("other").unwrap(), Value::Nil);
    lua.unset_named_registry_value("answer").unwrap();
    assert_eq!(lua.named_registry_value("answer").unwrap(), Value::Nil);
}

#[test]
fn modules_register_and_unload() {
    let mut lua = Lua::new();
    assert!(matches!(
        lua.register_module("mymod", Value::Integer(1)),
        Err(Error::RuntimeError(_))
    ));
    lua.register_module("@My/Mod", Value::Integer(1)).unwrap();
    assert_eq!(lua.registered_module("@my/mod"), Value::Integer(1));
    assert_eq!(lua.registered_module("@MY/MOD"), Value::Integer(1));
    lua.unload_module("@my/MOD").unwrap();
    assert_eq!(lua.registered_module("@my/mod"), Value::Nil);
    assert!(matches!(lua.unload_module("x"), Err(Error::RuntimeError(_))));
}

#[test]
fn replace_key_ids() {
    let mut lua = Lua::new();
    let other = lua.create_registry_value(Value::Integer(1)).unwrap();
    let mut key = lua.create_registry_value(Value::Integer(2)).unwrap();
    let id = key.id();
    lua.replace_registry_value(&mut key, Value::Integer(3)).unwrap();
    assert_eq!(key.id(), id);
    lua.replace_registry_value(&mut key, Value::Nil).unwrap();
    assert_eq!(key.id(), -1);
    // the released slot is handed out again
    let fresh = lua.create_registry_value(Value::Integer(4)).unwrap();
    assert_eq!(fresh.id(), id);
    lua.replace_registry_value(&mut key, Value::Integer(5)).unwrap();
    assert_ne!(key.id(), id);
    assert_ne!(key.id(), other.id());
    assert_eq!(lua.registry_value(&other).unwrap(), Value::Integer(1));
    assert_eq!(lua.registry_value(&fresh).unwrap(), Value::Integer(4));
}
