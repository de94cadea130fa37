use openusd::convention::{checked, Reply};
use openusd::cpp::String as CppString;
use openusd::sdf::{LayerHandle, LayerRefPtr, Path, PathVector};
use openusd::usd::{
    Attribute, Error, Mesh, Prim, PrimReply, Property, PropertyKind, PropertyShape, Relationship,
    Stage, StageRefPtr, StageReply,
};
use openusd::vt::{IntArray, Value};

#[test]
fn open_of_missing_file_is_typed_error() {
    let r = Stage::open(
        "/no/such/file.usda",
        StageReply { stage: StageRefPtr { ptr: 0x10 }, is_invalid: true },
    );
    match r {
        Err(Error::StageOpen { filename }) => assert_eq!(filename, "/no/such/file.usda"),
        _ => panic!("expected StageOpen"),
    }
}

#[test]
fn open_of_valid_stage_succeeds() {
    let r = Stage::open("scene.usda", StageReply { stage: StageRefPtr { ptr: 0x10 }, is_invalid: false });
    assert_eq!(r.map(|s| s.ptr).ok(), Some(0x10));
}

#[test]
fn create_new_failure_names_the_file() {
    let r = Stage::create_new("out.usda", StageReply { stage: StageRefPtr { ptr: 1 }, is_invalid: true });
    match r {
        Err(Error::StageCreateNew { filename }) => assert_eq!(filename, "out.usda"),
        _ => panic!("expected StageCreateNew"),
    }
    let ok = Stage::create_new("out.usda", StageReply { stage: StageRefPtr { ptr: 2 }, is_invalid: false });
    assert_eq!(ok.map(|s| s.ptr).ok(), Some(2));
}

#[test]
fn define_prim_then_lookup_missing_prim() {
    let stage = StageRefPtr { ptr: 0x20 };
    let world = Path::from("/World");
    let defined = stage.define_prim(&world, PrimReply { prim: Prim { ptr: 0x30 }, valid: true });
    let prim = defined.ok().expect("defined");
    assert_eq!(prim.ptr(), 0x30);
    assert_eq!(world.text(), "/World");
    let nope = Path::from("/Nope");
    match stage.prim_at_path(&nope, PrimReply { prim: Prim { ptr: 0 }, valid: false }) {
        Err(Error::NoPrimAtPath { path }) => assert_eq!(path, "/Nope"),
        _ => panic!("expected NoPrimAtPath"),
    }
}

#[test]
fn define_prim_failure_names_the_path() {
    let stage = StageRefPtr { ptr: 0x20 };
    let p = Path::from("/World/Mesh");
    match stage.define_prim(&p, PrimReply { prim: Prim { ptr: 0x31 }, valid: false }) {
        Err(Error::NoPrimAtPath { path }) => assert_eq!(path, "/World/Mesh"),
        _ => panic!("expected NoPrimAtPath"),
    }
}

#[test]
fn mesh_attribute_value_reads_back() {
    let attribute = Attribute { ptr: 0x40 };
    let stored = Value::IntArray(IntArray { items: vec![1, 2, 3] });
    let read = attribute.get(Reply { output: stored, succeeded: true }).expect("value");
    assert_eq!(read.as_int_array().map(|a| a.as_slice().to_vec()), Some(vec![1, 2, 3]));
    assert!(attribute.get(Reply { output: Value::default(), succeeded: false }).is_none());
    Mesh { ptr: 0x41 }.add_xform_op();
}

#[test]
fn exports_depend_on_success_flag() {
    let stage = StageRefPtr { ptr: 1 };
    let text = stage.export_to_string(Reply { output: CppString::new("#usda 1.0"), succeeded: true });
    assert_eq!(text.as_ref().map(|s| s.as_str()), Some("#usda 1.0"));
    assert!(stage.export_to_string(Reply { output: CppString::default(), succeeded: false }).is_none());
    let layer = LayerRefPtr { ptr: 2 };
    assert!(layer.export_to_string(Reply { output: CppString::new("x"), succeeded: false }).is_none());
    let handle = LayerHandle { ptr: 3 };
    assert_eq!(
        handle.export_to_string(Reply { output: CppString::new("y"), succeeded: true }).map(|s| s.len()),
        Some(1)
    );
    assert_eq!(checked(Reply { output: 5, succeeded: true }), Some(5));
    assert_eq!(checked(Reply { output: 5, succeeded: false }), None);
}

#[test]
fn relationship_targets_depend_on_success_flag() {
    let rel = Relationship { ptr: 9 };
    let mut targets = PathVector::default();
    targets.push(Path::from("/World/Light"));
    let got = rel.targets(Reply { output: targets, succeeded: true }).expect("targets");
    assert_eq!(got.size(), 1);
    assert!(rel.targets(Reply { output: PathVector::default(), succeeded: false }).is_none());
}

#[test]
fn property_kind_follows_capability_checks() {
    let p = Property { ptr: 5 };
    match p.property_kind(true, false, 50) {
        PropertyKind::Attribute(a) => assert_eq!(a.ptr, 50),
        _ => panic!("expected attribute"),
    }
    match p.property_kind(false, true, 60) {
        PropertyKind::Relationship(r) => assert_eq!(r.ptr, 60),
        _ => panic!("expected relationship"),
    }
    assert_eq!(Property::classify(true, true), PropertyShape::Attribute);
    assert_eq!(Property::classify(false, true), PropertyShape::Relationship);
}
