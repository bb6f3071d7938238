use srcpos_get::eval::{Instance, Item};
use srcpos_get::shape::{FieldSet, NamedField, RecordShape, UnnamedField, Variant};
use srcpos_get::synth::Accessor;
use srcpos_get::{derive_get_loc, Loc, Pos};

fn loc_named(name: &str, attrs: &[&str]) -> NamedField {
    NamedField { name: name.to_string(), attrs: attrs.iter().map(|a| a.to_string()).collect() }
}

fn loc_unnamed(attrs: &[&str]) -> UnnamedField {
    UnnamedField { attrs: attrs.iter().map(|a| a.to_string()).collect() }
}

/// `struct A { loc: Loc }`
fn loc_shape_a() -> RecordShape {
    RecordShape::Struct(FieldSet::Named(vec![loc_named("loc", &[])]))
}

/// `struct B { #[loc] a: Loc }`
fn loc_shape_b() -> RecordShape {
    RecordShape::Struct(FieldSet::Named(vec![loc_named("a", &["loc"])]))
}

/// `struct C(Loc);`
fn loc_shape_c() -> RecordShape {
    RecordShape::Struct(FieldSet::Unnamed(vec![loc_unnamed(&[])]))
}

/// `struct D(u8, #[loc] Loc);`
fn loc_shape_d() -> RecordShape {
    RecordShape::Struct(FieldSet::Unnamed(vec![loc_unnamed(&[]), loc_unnamed(&["loc"])]))
}

/// `enum E { A(Loc), B(u8, #[loc] Loc), C { loc: Loc }, D { #[loc] a: Loc, _b: u8 } }`
fn loc_shape_e() -> RecordShape {
    RecordShape::Enum(vec![
        Variant { name: "A".to_string(), fields: FieldSet::Unnamed(vec![loc_unnamed(&[])]) },
        Variant {
            name: "B".to_string(),
            fields: FieldSet::Unnamed(vec![loc_unnamed(&[]), loc_unnamed(&["loc"])]),
        },
        Variant { name: "C".to_string(), fields: FieldSet::Named(vec![loc_named("loc", &[])]) },
        Variant {
            name: "D".to_string(),
            fields: FieldSet::Named(vec![loc_named("a", &["loc"]), loc_named("_b", &[])]),
        },
    ])
}

fn loc_accessor(shape: &RecordShape) -> Accessor {
    derive_get_loc(shape).unwrap()
}

#[test]
fn test_loc_test_a() {
    let a = Instance { variant: 0, fields: vec![Item::Loc(Loc::new_at(0, 0, 0, 0))] };
    let v = loc_accessor(&loc_shape_a()).get_loc(&a).unwrap();
    assert_eq!(v, Loc::new_at(0, 0, 0, 0));
}

#[test]
fn test_loc_test_b() {
    let b = Instance { variant: 0, fields: vec![Item::Loc(Loc::new_at(0, 0, 0, 0))] };
    let v = loc_accessor(&loc_shape_b()).get_loc(&b).unwrap();
    assert_eq!(v, Loc::new_at(0, 0, 0, 0));
}

#[test]
fn test_loc_test_c() {
    let c = Instance { variant: 0, fields: vec![Item::Loc(Loc::new_at(0, 0, 0, 0))] };
    let v = loc_accessor(&loc_shape_c()).get_loc(&c).unwrap();
    assert_eq!(v, Loc::new_at(0, 0, 0, 0));
}

#[test]
fn test_loc_test_d() {
    let d = Instance { variant: 0, fields: vec![Item::Other, Item::Loc(Loc::new_at(0, 0, 0, 0))] };
    let v = loc_accessor(&loc_shape_d()).get_loc(&d).unwrap();
    assert_eq!(v, Loc::new_at(0, 0, 0, 0));
}

#[test]
fn test_loc_test_e_a() {
    let e = Instance { variant: 0, fields: vec![Item::Loc(Loc::new_at(0, 0, 0, 0))] };
    let v = loc_accessor(&loc_shape_e()).get_loc(&e).unwrap();
    assert_eq!(v, Loc::new_at(0, 0, 0, 0));
}

#[test]
fn test_loc_test_e_b() {
    let e = Instance { variant: 1, fields: vec![Item::Other, Item::Loc(Loc::new_at(0, 0, 0, 0))] };
    let v = loc_accessor(&loc_shape_e()).get_loc(&e).unwrap();
    assert_eq!(v, Loc::new_at(0, 0, 0, 0));
}

#[test]
fn test_loc_test_e_c() {
    let e = Instance { variant: 2, fields: vec![Item::Loc(Loc::new_at(0, 0, 0, 0))] };
    let v = loc_accessor(&loc_shape_e()).get_loc(&e).unwrap();
    assert_eq!(v, Loc::new_at(0, 0, 0, 0));
}

#[test]
fn test_loc_test_e_d() {
    let e = Instance { variant: 3, fields: vec![Item::Loc(Loc::new_at(0, 0, 0, 0)), Item::Other] };
    let v = loc_accessor(&loc_shape_e()).get_loc(&e).unwrap();
    assert_eq!(v, Loc::new_at(0, 0, 0, 0));
}

#[test]
fn loc_round_trip_keeps_distinct_values() {
    let d = Instance {
        variant: 1,
        fields: vec![Item::Loc(Loc::new_at(0, 0, 0, 0)), Item::Loc(Loc::new(Pos::new(3, 4), Pos::new(5, 6)))],
    };
    let v = loc_accessor(&loc_shape_e()).get_loc(&d).unwrap();
    assert_eq!(v, Loc::new(Pos::new(3, 4), Pos::new(5, 6)));
    assert_ne!(v, Loc::new_at(0, 0, 0, 0));
}
