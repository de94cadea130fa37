use openusd::sdf::{Path, PathVector};
use openusd::tf::Token;
use openusd::usd::{PropertyRef, PropertyVector};
use openusd::vt::TokenArray;

fn paths(texts: &[&str]) -> PathVector {
    let mut v = PathVector::default();
    for t in texts {
        v.push(Path::from(t));
    }
    v
}

#[test]
fn path_vector_iteration_count_matches_size() {
    let v = paths(&["/A", "/A/B", "/C"]);
    assert_eq!(v.size(), 3);
    assert_eq!(v.iter().count(), v.size());
    for i in 0..v.size() {
        let _ = v.at(i);
    }
    assert_eq!(v.at(1).text(), "/A/B");
}

#[test]
fn path_vector_iteration_yields_in_order() {
    let v = paths(&["/A", "/B"]);
    let mut it = v.iter();
    assert_eq!(it.next().map(|p| p.text()), Some("/A"));
    assert_eq!(it.next().map(|p| p.text()), Some("/B"));
    assert!(it.next().is_none());
    assert!(it.next().is_none());
}

#[test]
fn empty_path_vector() {
    let v = PathVector::default();
    assert_eq!(v.size(), 0);
    assert_eq!(v.iter().count(), 0);
}

#[test]
fn iterators_are_independent() {
    let v = paths(&["/A", "/B", "/C"]);
    let mut first = v.iter();
    first.next();
    assert_eq!(first.count(), 2);
    assert_eq!(v.iter().count(), 3);
}

#[test]
fn property_vector_iteration_count_matches_size() {
    let v = PropertyVector::from_refs(vec![PropertyRef { ptr: 1 }, PropertyRef { ptr: 2 }]);
    assert_eq!(v.size(), 2);
    assert_eq!(v.iter().count(), 2);
    let mut it = v.iter();
    assert_eq!(it.next(), Some(PropertyRef { ptr: 1 }));
    assert_eq!(it.next(), Some(PropertyRef { ptr: 2 }));
    assert_eq!(it.next(), None);
    assert_eq!(v.at(1), PropertyRef { ptr: 2 });
}

#[test]
fn token_array_iteration() {
    let a = TokenArray::from_tokens(vec![Token::new("x"), Token::new("y")]);
    assert_eq!(a.len(), 2);
    assert_eq!(a.at(0).text(), "x");
    let mut it = a.iter();
    assert_eq!(it.next().map(|t| t.text()), Some("x"));
    assert_eq!(it.next().map(|t| t.text()), Some("y"));
    assert!(it.next().is_none());
}
