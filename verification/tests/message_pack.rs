use std::collections::BTreeMap;

use glycin::editor_output::EditRequest;
use glycin::message_pack::{from_slice, to_message_pack, DecodeError};
use glycin::operations::{Operation, Operations};
use glycin::orientation::Rotation;
use rmpv::Value;
use serde::Serialize;

fn encoded(operations: Vec<Operation>) -> Vec<u8> {
    Operations::new(operations).to_message_pack().unwrap()
}

/// The bytes that the serializer of the wire writes for a value.
fn serialized<T: Serialize>(value: &T) -> Vec<u8> {
    let mut buf = Vec::new();
    value
        .serialize(&mut rmp_serde::Serializer::new(&mut buf).with_human_readable())
        .unwrap();
    buf
}

fn written(value: &Value) -> Vec<u8> {
    let mut buf = Vec::new();
    rmpv::encode::write_value(&mut buf, value).unwrap();
    buf
}

fn clip_value(area: (u32, u32, u32, u32)) -> Value {
    Value::Map(vec![(
        Value::from("Clip"),
        Value::Array(vec![
            Value::from(area.0),
            Value::from(area.1),
            Value::from(area.2),
            Value::from(area.3),
        ]),
    )])
}

fn message_value(operations: Vec<Value>) -> Value {
    Value::Array(vec![Value::Array(operations)])
}

#[test]
fn empty_list_of_operations() {
    assert_eq!(encoded(vec![]), vec![0x91, 0x90]);
    let operations = from_slice(&[0x91, 0x90]).unwrap();
    assert_eq!(operations, Operations::new(vec![]));
}

#[test]
fn bytes_of_each_operation() {
    assert_eq!(
        encoded(vec![Operation::Clip((1, 200, 3000, 70000))]),
        vec![
            0x91, 0x91, 0x81, 0xa4, b'C', b'l', b'i', b'p', 0x94, 0x01, 0xcc, 200, 0xcd, 0x0b,
            0xb8, 0xce, 0x00, 0x01, 0x11, 0x70
        ]
    );
    let mut mirror = vec![0x91, 0x91, 0xb2];
    mirror.extend_from_slice(b"MirrorHorizontally");
    assert_eq!(encoded(vec![Operation::MirrorHorizontally]), mirror);
    let mut mirror = vec![0x91, 0x91, 0xb0];
    mirror.extend_from_slice(b"MirrorVertically");
    assert_eq!(encoded(vec![Operation::MirrorVertically]), mirror);
    assert_eq!(
        encoded(vec![Operation::Rotate(Rotation::_270)]),
        vec![
            0x91, 0x91, 0x81, 0xa6, b'R', b'o', b't', b'a', b't', b'e', 0xa4, b'_', b'2', b'7',
            b'0'
        ]
    );
}

#[test]
fn clips_are_written_as_the_serializer_writes_them() {
    let areas = vec![
        (0u32, 0u32, 1u32, 1u32),
        (127, 128, 255, 256),
        (65535, 65536, u32::MAX, 7),
    ];
    let maps: Vec<BTreeMap<&str, (u32, u32, u32, u32)>> = areas
        .iter()
        .map(|area| BTreeMap::from([("Clip", *area)]))
        .collect();
    let operations = areas.iter().map(|area| Operation::Clip(*area)).collect();
    assert_eq!(encoded(operations), serialized(&(maps,)));
}

#[test]
fn rotations_are_written_as_the_serializer_writes_them() {
    let maps: Vec<BTreeMap<&str, &str>> = ["_0", "_90", "_180", "_270"]
        .iter()
        .map(|name| BTreeMap::from([("Rotate", *name)]))
        .collect();
    let operations = vec![
        Operation::Rotate(Rotation::_0),
        Operation::Rotate(Rotation::_90),
        Operation::Rotate(Rotation::_180),
        Operation::Rotate(Rotation::_270),
    ];
    assert_eq!(encoded(operations), serialized(&(maps,)));
}

#[test]
fn mirrors_are_written_as_the_serializer_writes_them() {
    let names = vec!["MirrorHorizontally", "MirrorVertically"];
    let operations = vec![Operation::MirrorHorizontally, Operation::MirrorVertically];
    assert_eq!(encoded(operations), serialized(&(names,)));
}

#[test]
fn long_lists_get_longer_headers() {
    for count in [15usize, 16, 17, 65535, 65536] {
        let operations = vec![Operation::MirrorHorizontally; count];
        let names = vec!["MirrorHorizontally"; count];
        let bytes = encoded(operations.clone());
        assert_eq!(bytes, serialized(&(names,)), "{count}");
        assert_eq!(from_slice(&bytes).unwrap(), Operations::new(operations));
    }
}

#[test]
fn mixed_list_round_trip() {
    let operations = vec![
        Operation::Rotate(Rotation::_90),
        Operation::Clip((1, 2, 300, 400_000)),
        Operation::MirrorHorizontally,
        Operation::MirrorVertically,
        Operation::Rotate(Rotation::_0),
    ];
    let bytes = encoded(operations.clone());
    let value = message_value(vec![
        Value::Map(vec![(Value::from("Rotate"), Value::from("_90"))]),
        clip_value((1, 2, 300, 400_000)),
        Value::from("MirrorHorizontally"),
        Value::from("MirrorVertically"),
        Value::Map(vec![(Value::from("Rotate"), Value::from("_0"))]),
    ]);
    assert_eq!(bytes, written(&value));
    assert_eq!(rmpv::decode::read_value(&mut bytes.as_slice()).unwrap(), value);
    let decoded = from_slice(&bytes).unwrap();
    assert_eq!(decoded.operations(), &operations);
    assert!(decoded.unknown_operations().is_empty());
    assert_eq!(Operations::from_slice(&bytes).unwrap(), decoded);
    assert_eq!(to_message_pack(&decoded).unwrap(), bytes);
}

#[test]
fn unknown_operations_are_kept_by_name() {
    let value = message_value(vec![
        Value::from("Sharpen"),
        clip_value((1, 2, 3, 4)),
        Value::Map(vec![(
            Value::from("Blur"),
            Value::Map(vec![
                (Value::from("radius"), Value::Array(vec![Value::from(2), Value::Nil])),
                (Value::from("kind"), Value::from("gauss")),
            ]),
        )]),
        Value::from("MirrorHorizontally"),
        Value::Map(vec![(Value::from("Rotate"), Value::from("_45"))]),
        Value::Map(vec![(Value::from("Clip"), Value::from("all"))]),
        Value::from("Clip"),
    ]);
    let operations = from_slice(&written(&value)).unwrap();
    assert_eq!(
        operations.operations(),
        &vec![Operation::Clip((1, 2, 3, 4)), Operation::MirrorHorizontally]
    );
    assert_eq!(
        operations.unknown_operations(),
        &vec![
            "Sharpen".to_string(),
            "Blur".to_string(),
            "Rotate".to_string(),
            "Clip".to_string(),
            "Clip".to_string()
        ]
    );
}

#[test]
fn unknown_name_that_is_no_text() {
    let mut bytes = vec![0x91, 0x91, 0xa2, 0xff, b'a'];
    assert_eq!(
        from_slice(&bytes).unwrap().unknown_operations(),
        &vec!["\u{fffd}a".to_string()]
    );
    // a name in the long form
    bytes = vec![0x91, 0x91, 0xd9, 0x04, b'C', b'l', b'i', b'p'];
    assert_eq!(
        from_slice(&bytes).unwrap().unknown_operations(),
        &vec!["Clip".to_string()]
    );
}

#[test]
fn numbers_in_every_width() {
    // the numbers 5, 6, 7 and 8 as unsigned numbers of 8, 16, 32 and 64 bits
    let mut bytes = vec![0x91, 0x91, 0x81, 0xa4, b'C', b'l', b'i', b'p', 0x94];
    bytes.extend_from_slice(&[0xcc, 5, 0xcd, 0, 6, 0xce, 0, 0, 0, 7, 0xcf, 0, 0, 0, 0, 0, 0, 0, 8]);
    assert_eq!(
        from_slice(&bytes).unwrap().operations(),
        &vec![Operation::Clip((5, 6, 7, 8))]
    );
    // and as signed numbers
    let mut bytes = vec![0x91, 0x91, 0x81, 0xa4, b'C', b'l', b'i', b'p', 0x94];
    bytes.extend_from_slice(&[0xd0, 5, 0xd1, 1, 0, 0xd2, 0, 1, 0, 0, 0xd3, 0, 0, 0, 0, 1, 0, 0, 0]);
    assert_eq!(
        from_slice(&bytes).unwrap().operations(),
        &vec![Operation::Clip((5, 256, 65536, 1 << 24))]
    );
    // a negative number is no part of an area
    let mut bytes = vec![0x91, 0x91, 0x81, 0xa4, b'C', b'l', b'i', b'p', 0x94];
    bytes.extend_from_slice(&[0xd0, 0xff, 1, 2, 3]);
    let operations = from_slice(&bytes).unwrap();
    assert!(operations.operations().is_empty());
    assert_eq!(operations.unknown_operations(), &vec!["Clip".to_string()]);
    // neither is one beyond 32 bits
    let mut bytes = vec![0x91, 0x91, 0x81, 0xa4, b'C', b'l', b'i', b'p', 0x94];
    bytes.extend_from_slice(&[0xcf, 0, 0, 0, 1, 0, 0, 0, 0, 1, 2, 3]);
    assert!(from_slice(&bytes).unwrap().operations().is_empty());
}

#[test]
fn malformed_messages() {
    for bytes in [
        vec![],
        vec![0x90],
        vec![0x91],
        vec![0x91, 0xc0],
        vec![0x91, 0x91],
        vec![0x91, 0x91, 0x01],
        vec![0x91, 0x91, 0xa4, b'C', b'l', b'i'],
        vec![0x91, 0x91, 0x81, 0x01, 0x02],
        vec![0x91, 0x91, 0x81, 0xa1, b'X'],
        vec![0x91, 0x91, 0x81, 0xa1, b'X', 0xc1],
        vec![0x91, 0x91, 0x81, 0xa1, b'X', 0x92, 0x01],
        vec![0x91, 0xdd, 0xff, 0xff, 0xff, 0xff, 0xa1, b'X'],
    ] {
        assert_eq!(from_slice(&bytes), Err(DecodeError::Malformed), "{bytes:?}");
        assert!(rmp_serde::from_slice::<(Vec<String>,)>(&bytes).is_err());
    }
}

#[test]
fn message_of_two_fields() {
    assert_eq!(from_slice(&[0x92, 0x90, 0x90]), Err(DecodeError::Malformed));
}

#[test]
fn what_follows_the_list_is_not_read() {
    let operations = from_slice(&[0x91, 0x90, 0xc1, 0xff]).unwrap();
    assert!(operations.operations().is_empty());
}

#[test]
fn written_list_is_read_by_the_deserializer() {
    let bytes = encoded(vec![Operation::Clip((9, 8, 7, 6)), Operation::Clip((1, 0, 0, 1))]);
    let decoded: (Vec<BTreeMap<String, (u32, u32, u32, u32)>>,) =
        rmp_serde::from_slice(&bytes).unwrap();
    assert_eq!(
        decoded.0,
        vec![
            BTreeMap::from([("Clip".to_string(), (9, 8, 7, 6))]),
            BTreeMap::from([("Clip".to_string(), (1, 0, 0, 1))])
        ]
    );
}

#[test]
fn edit_request_carries_operations() {
    let operations = Operations::new(vec![
        Operation::Rotate(Rotation::_180),
        Operation::Clip((0, 0, 10, 10)),
    ]);
    let request = EditRequest::for_operations(&operations).unwrap();
    assert_eq!(
        request.operations.get_full(),
        operations.to_message_pack().unwrap()
    );
    assert_eq!(request.operations().unwrap(), operations);
    let broken = EditRequest {
        operations: glycin::frame::BinaryData::from_data(vec![1, 2, 3]),
    };
    assert!(matches!(
        broken.operations(),
        Err(glycin::error::RemoteError::LoadingError(_))
    ));
}

#[test]
fn every_item_of_a_message_is_kept() {
    // of seven items three are names that are not known
    let value = message_value(vec![
        Value::Map(vec![(Value::from("Rotate"), Value::from("_90"))]),
        Value::from("Sharpen"),
        Value::from("MirrorVertically"),
        Value::from("Invert"),
        clip_value((0, 0, 300, 70_000)),
        Value::from("Posterize"),
        Value::from("MirrorHorizontally"),
    ]);
    let operations = from_slice(&written(&value)).unwrap();
    assert_eq!(
        operations.operations(),
        &vec![
            Operation::Rotate(Rotation::_90),
            Operation::MirrorVertically,
            Operation::Clip((0, 0, 300, 70_000)),
            Operation::MirrorHorizontally,
        ]
    );
    assert_eq!(
        operations.unknown_operations(),
        &vec![
            "Sharpen".to_string(),
            "Invert".to_string(),
            "Posterize".to_string()
        ]
    );
    assert_eq!(
        operations.operations().len() + operations.unknown_operations().len(),
        7
    );
}

#[test]
fn unknown_names_of_every_length_are_kept() {
    for len in [0usize, 1, 31, 32, 255, 256, 65_535, 65_536, 70_000] {
        let name = "x".repeat(len);
        let value = message_value(vec![
            Value::from("MirrorVertically"),
            Value::from(name.as_str()),
            clip_value((1, 2, 3, 4)),
        ]);
        let operations = from_slice(&written(&value)).unwrap();
        assert_eq!(
            operations.operations(),
            &vec![Operation::MirrorVertically, Operation::Clip((1, 2, 3, 4))],
            "{len}"
        );
        assert_eq!(operations.unknown_operations(), &vec![name], "{len}");
    }
}
