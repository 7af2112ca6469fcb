use local_agent::error::AIApiError;
use local_agent::json::Json;
use local_agent::proto::{
    json_value_to_prost_struct, prost_struct_to_json, prost_value_to_json, serde_json_to_prost_value,
    Double, ProtoKind, ProtoStruct, ProtoValue,
};

fn value(kind: ProtoKind) -> ProtoValue {
    ProtoValue { kind: Some(kind) }
}

fn double(number: f64) -> ProtoValue {
    value(ProtoKind::NumberValue(Double::Finite(serde_json::Number::from_f64(number).unwrap())))
}

fn proto(text: &str) -> ProtoValue {
    serde_json_to_prost_value(Json::parse(text).unwrap()).unwrap()
}

#[test]
fn proto_of_each_kind() {
    assert_eq!(proto("null"), value(ProtoKind::NullValue(0)));
    assert_eq!(proto("true"), value(ProtoKind::BoolValue(true)));
    assert_eq!(proto("\"s\""), value(ProtoKind::StringValue("s".to_string())));
    assert_eq!(proto("3"), double(3.0));
    assert_eq!(proto("-7"), double(-7.0));
    assert_eq!(proto("2.5"), double(2.5));
    assert_eq!(
        proto("[null,false]"),
        value(ProtoKind::ListValue(vec![
            value(ProtoKind::NullValue(0)),
            value(ProtoKind::BoolValue(false)),
        ]))
    );
    assert_eq!(
        proto(r#"{"a":{}}"#),
        value(ProtoKind::StructValue(ProtoStruct {
            fields: vec![(
                "a".to_string(),
                value(ProtoKind::StructValue(ProtoStruct { fields: vec![] })),
            )],
        }))
    );
}

#[test]
fn proto_integers_become_the_nearest_double() {
    assert_eq!(proto("9007199254740993"), double(9007199254740992.0));
}

#[test]
fn proto_struct_of_arguments() {
    assert!(json_value_to_prost_struct(None).unwrap().is_none());
    let made = json_value_to_prost_struct(Some(Json::parse(r#"{"k":"v"}"#).unwrap())).unwrap().unwrap();
    assert_eq!(
        made,
        ProtoStruct {
            fields: vec![("k".to_string(), value(ProtoKind::StringValue("v".to_string())))],
        }
    );
}

#[test]
fn proto_struct_wants_an_object() {
    match json_value_to_prost_struct(Some(Json::parse(r#"[1,"x"]"#).unwrap())) {
        Err(AIApiError::Other(text)) => {
            assert_eq!(text, r#"Expected MCP `args` to be a JSON object, got: [1,"x"]"#)
        }
        found => panic!("another result: {found:?}"),
    }
    match json_value_to_prost_struct(Some(Json::Null)) {
        Err(AIApiError::Other(text)) => {
            assert_eq!(text, "Expected MCP `args` to be a JSON object, got: null")
        }
        found => panic!("another result: {found:?}"),
    }
}

#[test]
fn json_of_each_kind() {
    assert_eq!(prost_value_to_json(&ProtoValue { kind: None }), Json::Null);
    assert_eq!(prost_value_to_json(&value(ProtoKind::NullValue(9))), Json::Null);
    assert_eq!(prost_value_to_json(&value(ProtoKind::NumberValue(Double::NotFinite))), Json::Null);
    assert_eq!(prost_value_to_json(&double(1.5)).to_text(), "1.5");
    assert_eq!(prost_value_to_json(&double(3.0)).to_text(), "3.0");
    let list = value(ProtoKind::ListValue(vec![
        value(ProtoKind::BoolValue(true)),
        value(ProtoKind::StringValue("s".to_string())),
    ]));
    assert_eq!(prost_value_to_json(&list).to_text(), r#"[true,"s"]"#);
}

#[test]
fn json_of_a_struct() {
    let made = ProtoStruct {
        fields: vec![
            ("b".to_string(), double(0.5)),
            ("a".to_string(), value(ProtoKind::StructValue(ProtoStruct { fields: vec![] }))),
        ],
    };
    assert_eq!(prost_struct_to_json(&made).to_text(), r#"{"a":{},"b":0.5}"#);
}

#[test]
fn proto_that_json_can_tell_survives_the_way_through() {
    let there = || {
        value(ProtoKind::ListValue(vec![
            double(0.1),
            double(-3.0),
            value(ProtoKind::NullValue(0)),
            value(ProtoKind::StringValue("s".to_string())),
        ]))
    };
    assert_eq!(serde_json_to_prost_value(prost_value_to_json(&there())).unwrap(), there());
}

#[test]
fn json_without_integers_survives_the_way_through() {
    let json = Json::parse(r#"{"a":["x",null,{"b":true}],"c":"","d":2.5}"#).unwrap();
    let there = serde_json_to_prost_value(json.clone()).unwrap();
    assert_eq!(prost_value_to_json(&there).to_text(), json.to_text());
}

#[test]
fn json_numbers_come_back_as_doubles() {
    assert_eq!(prost_value_to_json(&proto("[1,1.5]")).to_text(), "[1.0,1.5]");
}
