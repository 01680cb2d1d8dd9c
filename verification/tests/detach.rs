use valueformat::ds::Detach;
use valueformat::ds::Detached;

#[test]
fn test_detach() {
    let mut dd = Detach::new("fop");

    assert_eq!(dd.is_detached(), false);

    assert_eq!(*dd.as_ref(), "fop");
    assert_eq!(*dd.as_mut(), "fop");

    let d = dd.detach(0u32);

    assert_eq!(*d.value(), "fop");
    assert_eq!(d.value().trim(), "fop");

    assert_eq!(dd.is_detached(), true);

    dd.attach(d);

    assert_eq!(dd.is_detached(), false);

    let tt = dd.take();

    assert_eq!(tt, "fop");
}

#[test]
fn test_detach_key() {
    let mut dd = Detach::new(String::from("x"));
    let mut d = dd.detach(7u32);
    assert_eq!(Detached::key(&d), 7u32);
    d.value_mut().push('y');
    dd.attach(d);
    assert_eq!(dd.as_ref(), "xy");
}

#[test]
fn test_detach_clone() {
    let dd = Detach::new(5u64);
    let ee = dd.clone();
    assert_eq!(*ee.as_ref(), 5u64);
    assert_eq!(ee.is_detached(), false);
}
