use jsonrpc_core::types::{Call, Id, MethodCall, Notification, Params, Request, Value, Version};

#[test]
fn method_call_serialize() {
    let m = MethodCall {
        jsonrpc: Version::V2,
        method: "update".to_owned(),
        params: Some(Params::Array(vec![Value::U64(1), Value::U64(2)])),
        id: Id::Num(1),
    };

    let serialized = Call::MethodCall(m).to_json().unwrap();
    assert_eq!(serialized, r#"{"jsonrpc":"2.0","method":"update","params":[1,2],"id":1}"#);
}

#[test]
fn notification_serialize() {
    let n = Notification {
        jsonrpc: Version::V2,
        method: "update".to_owned(),
        params: Some(Params::Array(vec![Value::U64(1), Value::U64(2)])),
    };

    let serialized = Call::Notification(n).to_json().unwrap();
    assert_eq!(serialized, r#"{"jsonrpc":"2.0","method":"update","params":[1,2]}"#);
}

#[test]
fn call_serialize() {
    let n = Call::Notification(Notification {
        jsonrpc: Version::V2,
        method: "update".to_owned(),
        params: Some(Params::Array(vec![Value::U64(1)])),
    });

    let serialized = n.to_json().unwrap();
    assert_eq!(serialized, r#"{"jsonrpc":"2.0","method":"update","params":[1]}"#);
}

#[test]
fn request_serialize_batch() {
    let batch = Request::Batch(vec![
        Call::MethodCall(MethodCall {
            jsonrpc: Version::V2,
            method: "update".to_owned(),
            params: Some(Params::Array(vec![Value::U64(1), Value::U64(2)])),
            id: Id::Num(1),
        }),
        Call::Notification(Notification {
            jsonrpc: Version::V2,
            method: "update".to_owned(),
            params: Some(Params::Array(vec![Value::U64(1)])),
        }),
    ]);

    let serialized = batch.to_json().unwrap();
    assert_eq!(
        serialized,
        r#"[{"jsonrpc":"2.0","method":"update","params":[1,2],"id":1},{"jsonrpc":"2.0","method":"update","params":[1]}]"#
    );
}

#[test]
fn notification_deserialize() {
    let s = r#"{"jsonrpc": "2.0", "method": "update", "params": [1,2]}"#;
    let deserialized = Call::from_json(s).unwrap();

    assert_eq!(
        deserialized,
        Call::Notification(Notification {
            jsonrpc: Version::V2,
            method: "update".to_owned(),
            params: Some(Params::Array(vec![Value::U64(1), Value::U64(2)])),
        })
    );

    let s = r#"{"jsonrpc": "2.0", "method": "foobar"}"#;
    let deserialized = Call::from_json(s).unwrap();

    assert_eq!(
        deserialized,
        Call::Notification(Notification { jsonrpc: Version::V2, method: "foobar".to_owned(), params: None })
    );

    let s = r#"{"jsonrpc": "2.0", "method": "update", "params": [1,2], "id": 1}"#;
    let deserialized = Call::from_json(s).unwrap();
    assert!(!matches!(deserialized, Call::Notification(_)))
}

#[test]
fn call_deserialize() {
    let s = r#"{"jsonrpc": "2.0", "method": "update", "params": [1]}"#;
    let deserialized = Call::from_json(s).unwrap();
    assert_eq!(
        deserialized,
        Call::Notification(Notification {
            jsonrpc: Version::V2,
            method: "update".to_owned(),
            params: Some(Params::Array(vec![Value::U64(1)])),
        })
    );

    let s = r#"{"jsonrpc": "2.0", "method": "update", "params": [1], "id": 1}"#;
    let deserialized = Call::from_json(s).unwrap();
    assert_eq!(
        deserialized,
        Call::MethodCall(MethodCall {
            jsonrpc: Version::V2,
            method: "update".to_owned(),
            params: Some(Params::Array(vec![Value::U64(1)])),
            id: Id::Num(1),
        })
    );
}

#[test]
fn request_deserialize_batch() {
    let s = r#"[1, {"jsonrpc": "2.0", "method": "update", "params": [1,2], "id": 1},{"jsonrpc": "2.0", "method": "update", "params": [1]}]"#;
    let deserialized = Request::from_json(s).unwrap();
    assert_eq!(
        deserialized,
        Request::Batch(vec![
            Call::Invalid(Id::Null),
            Call::MethodCall(MethodCall {
                jsonrpc: Version::V2,
                method: "update".to_owned(),
                params: Some(Params::Array(vec![Value::U64(1), Value::U64(2)])),
                id: Id::Num(1),
            }),
            Call::Notification(Notification {
                jsonrpc: Version::V2,
                method: "update".to_owned(),
                params: Some(Params::Array(vec![Value::U64(1)])),
            }),
        ])
    )
}

#[test]
fn request_invalid_returns_id() {
    let s = r#"{"id":120,"method":"my_method","params":["foo", "bar"]}"#;
    let deserialized = Request::from_json(s).unwrap();
    match deserialized {
        Request::Single(Call::Invalid(Id::Num(120))) => {},
        _ => panic!("Request wrongly deserialized: {:?}", deserialized),
    }
}

#[test]
fn request_round_trip_through_value() {
    let req = Request::Batch(vec![
        Call::MethodCall(MethodCall {
            jsonrpc: Version::V2,
            method: "sum".to_owned(),
            params: Some(Params::Object(vec![("a".to_owned(), Value::I64(-3))])),
            id: Id::Str("x".to_owned()),
        }),
        Call::Notification(Notification { jsonrpc: Version::V2, method: "tick".to_owned(), params: Some(Params::Empty) }),
    ]);
    let text = Request::Batch(vec![
        Call::MethodCall(MethodCall {
            jsonrpc: Version::V2,
            method: "sum".to_owned(),
            params: Some(Params::Object(vec![("a".to_owned(), Value::I64(-3))])),
            id: Id::Str("x".to_owned()),
        }),
        Call::Notification(Notification { jsonrpc: Version::V2, method: "tick".to_owned(), params: Some(Params::Empty) }),
    ])
    .to_json()
    .unwrap();
    assert_eq!(text, r#"[{"jsonrpc":"2.0","method":"sum","params":{"a":-3},"id":"x"},{"jsonrpc":"2.0","method":"tick","params":null}]"#);
    assert_eq!(Request::from_json(&text).unwrap(), req);
}

#[test]
fn invalid_call_is_not_written() {
    assert_eq!(Call::Invalid(Id::Null).to_json(), None);
}

#[test]
fn unknown_member_makes_call_invalid() {
    let c = Call::from_json(r#"{"jsonrpc":"2.0","method":"m","id":7,"extra":1}"#).unwrap();
    assert_eq!(c, Call::Invalid(Id::Num(7)));
}

#[test]
fn wrong_version_with_id_reads_as_method_call() {
    let c = Call::from_json(r#"{"jsonrpc":"1.0","method":"m","id":7}"#).unwrap();
    assert_eq!(
        c,
        Call::MethodCall(MethodCall {
            jsonrpc: Version::Unsupported("1.0".to_owned()),
            method: "m".to_owned(),
            params: None,
            id: Id::Num(7),
        })
    );
}

#[test]
fn not_json_is_refused() {
    assert_eq!(Request::from_json("{not json"), None);
}

#[test]
fn negative_id_reads_and_writes() {
    let c = Call::from_json(r#"{"jsonrpc":"2.0","method":"m","id":-3}"#).unwrap();
    assert_eq!(
        c,
        Call::MethodCall(MethodCall { jsonrpc: Version::V2, method: "m".to_owned(), params: None, id: Id::Neg(-3) })
    );
    assert_eq!(c.to_json().unwrap(), r#"{"jsonrpc":"2.0","method":"m","id":-3}"#);
}

#[test]
fn call_value_keeps_member_order() {
    let c = Call::MethodCall(MethodCall {
        jsonrpc: Version::V2,
        method: "m".to_owned(),
        params: Some(Params::Empty),
        id: Id::Null,
    });
    match c.to_value().unwrap() {
        Value::Object(f) => {
            let keys: Vec<&str> = f.iter().map(|(k, _)| k.as_str()).collect();
            assert_eq!(keys, vec!["jsonrpc", "method", "params", "id"]);
        },
        other => panic!("not an object: {:?}", other),
    }
}
