use std::rc::Rc;
use std::sync::Arc;
use strref::{IntoStr, Str, StrRef, ToStr};

#[test]
fn pass_string() {
    let s = "String value".to_string();
    let ps = s.as_ptr();
    let ss = s.into_str();
    let ps2 = ss.as_ptr();
    assert_eq!(ps, ps2);
}

#[test]
fn pass_arc() {
    let s = "String value".to_string();
    let ps = s.as_ptr();
    let arc = Arc::new(s);
    let ss = arc.into_str();
    let ps2 = ss.as_ptr();
    assert_eq!(ps, ps2);
}

#[test]
fn pass_rc() {
    let s = "String value".to_string();
    let ps = s.as_ptr();
    let rc = Rc::new(s);
    let ss: Str = rc.into_str();
    let ps2 = ss.as_ptr();
    // An Rc is copied in full to become a Str
    assert_ne!(ps, ps2);
}

#[test]
fn pass_rc_keeps_text() {
    let rc = Rc::new("String value".to_string());
    let ss: Str = rc.clone().into_str();
    assert_eq!(ss.borrow_str(), "String value");
    assert_eq!(rc.as_str(), "String value");
    assert!(matches!(ss, Str::Rc(_)));
}

#[test]
fn pass_literal_twice() {
    let lit: &'static str = "literal";
    let a = lit.into_str();
    let b = lit.into_str();
    assert_eq!(a.as_ptr(), lit.as_ptr());
    assert_eq!(a.as_ptr(), b.as_ptr());
    assert_eq!(a.borrow_str(), "literal");
    assert!(matches!(a, Str::Static(_)));
}

#[test]
fn pass_string_keeps_text() {
    let ss = "String value".to_string().into_str();
    assert_eq!(ss.borrow_str(), "String value");
    assert_eq!(ss.len(), 12);
    assert!(matches!(ss, Str::Rc(_)));
}

#[test]
fn pass_borrowed_string_copies() {
    let s = "String value".to_string();
    let ps = s.as_ptr();
    let ss = (&s).into_str();
    assert_ne!(ps, ss.as_ptr());
    assert_eq!(ss.borrow_str(), "String value");
    assert_eq!(s, "String value");
    assert!(matches!(ss, Str::Rc(_)));
}

#[test]
fn pass_str_is_itself() {
    let a = "String value".to_string().into_str();
    let p = a.as_ptr();
    let b = a.into_str();
    assert_eq!(p, b.as_ptr());
    assert_eq!(b.borrow_str(), "String value");
}

#[test]
fn pass_arc_shares_count() {
    let arc = Arc::new("shared".to_string());
    let ss = arc.clone().into_str();
    assert_eq!(Arc::strong_count(&arc), 2);
    assert_eq!(ss.as_ptr(), arc.as_ptr());
    drop(ss);
    assert_eq!(Arc::strong_count(&arc), 1);
}

#[test]
fn to_str_of_arc_shares() {
    let arc = Arc::new("shared".to_string());
    let ss = arc.to_str();
    assert_eq!(Arc::strong_count(&arc), 2);
    assert_eq!(ss.as_ptr(), arc.as_ptr());
    assert_eq!(ss.borrow_str(), "shared");
}

#[test]
fn to_str_of_literal() {
    let lit: &'static str = "literal";
    let ss = lit.to_str();
    assert_eq!(ss.as_ptr(), lit.as_ptr());
    assert!(matches!(ss, Str::Static(_)));
}

#[test]
fn to_str_of_str_shares() {
    let a = "String value".to_string().into_str();
    let b = a.to_str();
    assert_eq!(a.as_ptr(), b.as_ptr());
    assert_eq!(b.borrow_str(), "String value");
}

#[test]
fn clone_shares_heap_text() {
    let arc = Arc::new("shared".to_string());
    let a = arc.clone().into_str();
    let b = a.clone();
    assert_eq!(a.as_ptr(), b.as_ptr());
    assert_eq!(Arc::strong_count(&arc), 3);
    assert!(matches!(b, Str::Rc(_)));
    assert_eq!(b.borrow_str(), "shared");
}

#[test]
fn clone_of_literal_is_the_literal() {
    let lit: &'static str = "literal";
    let a = lit.into_str();
    let b = a.clone();
    assert_eq!(b.as_ptr(), lit.as_ptr());
    assert!(matches!(b, Str::Static(_)));
}

#[test]
fn duplicate_is_independent() {
    let a = "String value".to_string().into_str();
    let mut d = a.duplicate();
    assert_eq!(d, "String value");
    assert_ne!(d.as_ptr(), a.as_ptr());
    d.push_str(" changed");
    assert_eq!(d, "String value changed");
    assert_eq!(a.borrow_str(), "String value");
}

#[test]
fn duplicate_of_literal() {
    let lit: &'static str = "literal";
    let a = lit.into_str();
    let d = a.duplicate();
    assert_eq!(d, "literal");
    assert_ne!(d.as_ptr(), lit.as_ptr());
}

#[test]
fn borrow_str_of_each_kind() {
    let owned = "text".to_string();
    assert_eq!(StrRef::borrow_str(&owned), "text");
    assert_eq!(StrRef::borrow_str(&owned).as_ptr(), owned.as_ptr());
    let by_ref: &String = &owned;
    assert_eq!(StrRef::borrow_str(&by_ref), "text");
    assert_eq!(StrRef::borrow_str("text"), "text");
    let lit: &'static str = "text";
    assert_eq!(StrRef::borrow_str(&lit), "text");
    let arc = Arc::new("text".to_string());
    assert_eq!(StrRef::borrow_str(&arc), "text");
    let rc = Rc::new("text".to_string());
    assert_eq!(StrRef::borrow_str(&rc), "text");
    let s = "text".into_str();
    assert_eq!(StrRef::borrow_str(&s), "text");
}

#[test]
fn empty_text_in_either_form() {
    let a = "".into_str();
    let b = String::new().into_str();
    assert_eq!(a.borrow_str(), "");
    assert_eq!(b.borrow_str(), "");
    assert!(a == b);
    assert_eq!(a.duplicate(), "");
    assert_eq!(b.to_string(), "");
}
