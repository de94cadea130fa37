use openusd::sdf::AssetPath;
use openusd::tf::Token;
use openusd::vt::{
    Double, DoubleArray, Float, FloatArray, IntArray, Vec2Array, Vec3Array, Vec4Array, TokenArray, Value, ValueKind, ValueMember, Vec2, Vec3, Vec4,
};

#[test]
fn int_round_trips_and_other_members_are_absent() {
    let v = <i32 as ValueMember>::from(&7);
    assert_eq!(v.get::<i32>(), Some(&7));
    assert!(v.get::<bool>().is_none());
    assert!(v.get::<Float>().is_none());
    assert!(v.get::<Double>().is_none());
    assert!(v.get::<Vec2>().is_none());
    assert!(v.get::<Vec3>().is_none());
    assert!(v.get::<Vec4>().is_none());
    assert!(i32::is_holding(&v));
    assert!(!bool::is_holding(&v));
}

#[test]
fn every_member_round_trips() {
    let f = Float { bits: 1.5f32.to_bits() };
    let d = Double { bits: 2.25f64.to_bits() };
    let v2 = Vec2 { x: 1, y: 2 };
    let v3 = Vec3 { x: 1, y: 2, z: 3 };
    let v4 = Vec4 { x: 1, y: 2, z: 3, w: 4 };
    assert_eq!(<bool as ValueMember>::from(&true).get::<bool>(), Some(&true));
    assert_eq!(<Float as ValueMember>::from(&f).get::<Float>(), Some(&f));
    assert_eq!(f32::from_bits(<Float as ValueMember>::from(&f).get::<Float>().unwrap().bits), 1.5f32);
    assert_eq!(<Double as ValueMember>::from(&d).get::<Double>(), Some(&d));
    assert_eq!(<Vec2 as ValueMember>::from(&v2).get::<Vec2>(), Some(&v2));
    assert_eq!(<Vec3 as ValueMember>::from(&v3).get::<Vec3>(), Some(&v3));
    assert_eq!(<Vec4 as ValueMember>::from(&v4).get::<Vec4>(), Some(&v4));
    assert!(<Vec3 as ValueMember>::from(&v3).get::<Vec4>().is_none());
    assert!(<Float as ValueMember>::from(&f).get::<Double>().is_none());
    assert!(<bool as ValueMember>::from(&false).get::<i32>().is_none());
}

#[test]
fn int_array_reads_back_through_the_union() {
    let v = Value::IntArray(IntArray { items: vec![1, 2, 3] });
    assert_eq!(v.kind(), ValueKind::IntArray);
    assert_eq!(v.as_int_array().map(|a| a.as_slice()), Some(&[1, 2, 3][..]));
    assert!(v.as_float_array().is_none());
    assert!(v.as_token().is_none());
    assert!(v.get::<i32>().is_none());
}

#[test]
fn empty_value_holds_nothing() {
    let v = Value::default();
    assert_eq!(v.kind(), ValueKind::Empty);
    assert!(v.get::<i32>().is_none());
    assert!(v.as_int_array().is_none());
    assert!(v.as_asset_path().is_none());
    assert!(v.as_token_array().is_none());
}

#[test]
fn token_and_asset_path_variants() {
    let v = Value::Token(Token::new("Mesh"));
    assert_eq!(v.as_token().map(|t| t.text()), Some("Mesh"));
    assert!(v.as_token_array().is_none());
    let a = Value::AssetPath(AssetPath::from_path("a.usd"));
    assert_eq!(a.as_asset_path().map(|p| p.asset_path()), Some("a.usd"));
    let ta = Value::TokenArray(TokenArray::from_tokens(vec![Token::new("a")]));
    assert_eq!(ta.as_token_array().map(|t| t.len()), Some(1));
}

#[test]
fn array_variants_are_exclusive() {
    let f = Value::FloatArray(FloatArray { items: vec![0.5f32.to_bits()] });
    assert_eq!(f.as_float_array().map(|a| a.as_slice().len()), Some(1));
    assert!(f.as_double_array().is_none());
    let d = Value::DoubleArray(DoubleArray { items: vec![1, 2] });
    assert_eq!(d.as_double_array().map(|a| a.as_slice()), Some(&[1u64, 2][..]));
    let v2 = Value::Vec2Array(Vec2Array { items: vec![Vec2 { x: 1, y: 2 }] });
    assert_eq!(v2.as_vec2_array().map(|a| a.as_slice().len()), Some(1));
    assert!(v2.as_vec3_array().is_none());
    let v3 = Value::Vec3Array(Vec3Array { items: vec![] });
    assert_eq!(v3.as_vec3_array().map(|a| a.as_slice().len()), Some(0));
    let v4 = Value::Vec4Array(Vec4Array { items: vec![Vec4 { x: 0, y: 0, z: 0, w: 1 }] });
    assert_eq!(v4.kind(), ValueKind::Vec4Array);
    assert!(v4.as_vec4_array().is_some());
}
