use ulua::{Error, Lua, Value};

#[test]
fn pack_and_unpack_values() {
    let lua = Lua::new();
    assert_eq!(lua.pack(true).unwrap(), Value::Boolean(true));
    assert_eq!(lua.pack(7i64).unwrap(), Value::Integer(7));
    assert_eq!(lua.pack("s".to_string()).unwrap(), Value::String("s".to_string()));
    assert_eq!(lua.unpack::<i64>(Value::Integer(3)).unwrap(), 3);
    assert!(matches!(
        lua.unpack::<i64>(Value::Boolean(true)),
        Err(Error::FromLuaConversionError(_))
    ));
    assert!(!lua.unpack::<bool>(Value::Nil).unwrap());
    assert!(lua.unpack::<bool>(Value::Integer(0)).unwrap());
    assert_eq!(lua.convert::<String, String>("x".to_string()).unwrap(), "x");
    assert!(lua.convert::<i64, bool>(false).is_err());
}

#[test]
fn pack_and_unpack_many() {
    let lua = Lua::new();
    let vs = lua.pack_multi(vec![1i64, 2, 3]).unwrap();
    assert_eq!(vs, vec![Value::Integer(1), Value::Integer(2), Value::Integer(3)]);
    assert_eq!(lua.unpack_multi::<i64>(vs).unwrap(), vec![1, 2, 3]);
    assert!(lua
        .unpack_multi::<i64>(vec![Value::Integer(1), Value::Nil])
        .is_err());
    assert_eq!(lua.unpack_multi::<i64>(vec![]).unwrap(), Vec::<i64>::new());
}
