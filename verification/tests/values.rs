//! The value model: strict narrowing, clone behavior, and the package
//! round trip.

use aml_core::accessor::Accessor;
use aml_core::value::{
    clone_value, AccessType, AmlError, AmlValue, FieldFlags, FieldSelector, Method,
    ObjectReference, RegionSpace, UpdateRule,
};

fn sample_method() -> Method {
    Method::new(2, false, 0, vec![0x70, 0x01, 0x60])
}

fn sample_flags() -> FieldFlags {
    FieldFlags {
        access_type: AccessType::ByteAcc,
        lock_rule: false,
        update_rule: UpdateRule::Preserve,
    }
}

/// One value of every variant other than `String`.
fn every_non_string_variant() -> Vec<AmlValue> {
    vec![
        AmlValue::Absent,
        AmlValue::Uninitialized,
        AmlValue::Buffer(vec![1, 2, 3]),
        AmlValue::BufferField {
            source_buf: Box::new(AmlValue::Buffer(vec![0xff])),
            index: Box::new(AmlValue::IntegerConstant(0)),
            length: Box::new(AmlValue::IntegerConstant(8)),
        },
        AmlValue::DDBHandle(4),
        AmlValue::DebugObject,
        AmlValue::Device(vec!["\\_SB.PCI0".to_string()]),
        AmlValue::Event(0),
        AmlValue::FieldUnit {
            selector: FieldSelector::Region("\\_SB.GPIO".to_string()),
            connection: Box::new(AmlValue::Absent),
            flags: sample_flags(),
            offset: 4,
            length: 2,
        },
        AmlValue::Integer(42),
        AmlValue::IntegerConstant(1),
        AmlValue::Method(sample_method()),
        AmlValue::Mutex((3, None)),
        AmlValue::ObjectReference(ObjectReference::LocalObj(5)),
        AmlValue::OperationRegion {
            region: RegionSpace::SystemMemory,
            offset: Box::new(AmlValue::IntegerConstant(0x1000)),
            len: Box::new(AmlValue::IntegerConstant(0x10)),
            accessor: Accessor::new(vec![0, 0]),
            accessed_by: None,
        },
        AmlValue::Package(vec![AmlValue::Integer(1), AmlValue::Integer(2)]),
        AmlValue::PowerResource { system_level: 1, resource_order: 2, obj_list: vec![] },
        AmlValue::Processor { proc_id: 0, p_blk: Some(0xb000), obj_list: vec![] },
        AmlValue::RawDataBuffer(vec![9, 9]),
        AmlValue::ThermalZone(vec!["\\_TZ.FAN0".to_string()]),
    ]
}

#[test]
fn string_narrowing_returns_the_text() {
    let v = AmlValue::String("\\_SB.PCI0".to_string());
    assert_eq!(v.get_as_string(), Ok("\\_SB.PCI0".to_string()));
}

#[test]
fn string_narrowing_rejects_every_other_variant() {
    for v in every_non_string_variant() {
        assert_eq!(v.get_as_string(), Err(AmlError::AmlValueError));
    }
}

#[test]
fn event_narrowing_is_variant_exact() {
    assert_eq!(AmlValue::Event(7).get_as_event(), Ok(7));
    assert_eq!(AmlValue::Integer(7).get_as_event(), Err(AmlError::AmlValueError));
    assert_eq!(AmlValue::Mutex((0, None)).get_as_event(), Err(AmlError::AmlValueError));
}

#[test]
fn buffer_narrowing_is_variant_exact() {
    assert_eq!(AmlValue::Buffer(vec![1, 2, 3]).get_as_buffer(), Ok(vec![1, 2, 3]));
    assert_eq!(
        AmlValue::RawDataBuffer(vec![1, 2, 3]).get_as_buffer(),
        Err(AmlError::AmlValueError)
    );
}

#[test]
fn integer_narrowing_takes_only_the_constant_kind() {
    assert_eq!(AmlValue::IntegerConstant(99).get_as_integer(), Ok(99));
    // A computed integer is not substituted for a requested constant.
    assert_eq!(AmlValue::Integer(99).get_as_integer(), Err(AmlError::AmlValueError));
}

#[test]
fn method_narrowing_returns_the_record() {
    let m = AmlValue::Method(sample_method()).get_as_method().unwrap();
    assert_eq!(m.arg_count, 2);
    assert!(!m.serialized);
    assert_eq!(m.sync_level, 0);
    assert_eq!(m.term_list, vec![0x70, 0x01, 0x60]);
    assert!(AmlValue::Buffer(vec![]).get_as_method().is_err());
}

#[test]
fn package_round_trip_preserves_order_and_values() {
    let entries = vec![
        AmlValue::Integer(10),
        AmlValue::String("NAME".to_string()),
        AmlValue::Package(vec![AmlValue::IntegerConstant(0)]),
    ];
    let v = AmlValue::Package(entries);
    let back = v.get_as_package().unwrap();
    assert_eq!(back.len(), 3);
    assert!(matches!(back[0], AmlValue::Integer(10)));
    assert_eq!(back[1].get_as_string(), Ok("NAME".to_string()));
    let nested = back[2].get_as_package().unwrap();
    assert_eq!(nested.len(), 1);
    assert!(matches!(nested[0], AmlValue::IntegerConstant(0)));
}

#[test]
fn package_narrowing_rejects_a_buffer() {
    assert_eq!(
        AmlValue::Buffer(vec![1]).get_as_package().err(),
        Some(AmlError::AmlValueError)
    );
}

#[test]
fn cloning_a_value_copies_its_whole_tree() {
    let original = AmlValue::Package(vec![
        AmlValue::String("DEEP".to_string()),
        AmlValue::Buffer(vec![0xde, 0xad]),
        AmlValue::ObjectReference(ObjectReference::Object(Box::new(AmlValue::Event(3)))),
    ]);
    let copy = clone_value(&original);
    drop(original);
    let entries = copy.get_as_package().unwrap();
    assert_eq!(entries[0].get_as_string(), Ok("DEEP".to_string()));
    assert_eq!(entries[1].get_as_buffer(), Ok(vec![0xde, 0xad]));
    match &entries[2] {
        AmlValue::ObjectReference(ObjectReference::Object(inner)) => {
            assert_eq!(inner.get_as_event(), Ok(3));
        }
        _ => panic!("clone changed the reference variant"),
    }
}

#[test]
fn cloning_a_method_keeps_the_record() {
    let m = sample_method();
    let c = m.clone();
    assert_eq!(c.arg_count, m.arg_count);
    assert_eq!(c.serialized, m.serialized);
    assert_eq!(c.sync_level, m.sync_level);
    assert_eq!(c.term_list, m.term_list);
}
