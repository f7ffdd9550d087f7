use ironties::types::{
    FfiSafeEquivalent, MaybePanicked, SBox, SGlobal, SMutSlice, SMutStr, SOption, SResult, SSlice,
    SStr, STuple2, SUnit, SVec,
};

#[test]
fn svec_round_trip() {
    let v = vec![1u32, 2, 3];
    let s = SVec::from_vec(v.clone());
    assert_eq!(s.into_vec(), v);

    let s = SVec::from_normal(v.clone());
    assert_eq!(s.into_normal(), v);

    let s = SVec::convert(v.clone());
    assert_eq!(s.into_vec(), v);
}

#[test]
fn svec_operations() {
    let mut s: SVec<u8> = SVec::new();
    assert_eq!(s.len(), 0);
    s.push(7);
    s.push(9);
    assert_eq!(s.len(), 2);
    assert_eq!(*s.get(0), 7);
    assert_eq!(*s.get(1), 9);
    assert_eq!(s.into_vec(), vec![7, 9]);
}

#[test]
fn sbox_round_trip() {
    let b = Box::new(41i64);
    let s = SBox::from_normal(b);
    assert_eq!(*s.into_normal(), 41);

    let s = SBox::from_box(Box::new("text"));
    assert_eq!(*s.as_ref(), "text");
    assert_eq!(*s.into_normal(), "text");

    let s = SBox::new(5u8);
    assert_eq!(*s.into_normal(), 5);
}

#[test]
fn sslice_round_trip() {
    let data = [10u16, 20, 30];
    let s = SSlice::from_slice(&data);
    assert_eq!(s.to_slice(), &data);
    assert_eq!(s.into_slice(), &data);

    let s = SSlice::new(&data);
    assert_eq!(s.into_normal(), &data);
    let s2 = SSlice::from_normal(&data[1..]);
    assert_eq!(s2.to_slice(), &[20, 30]);
}

#[test]
fn sstr_round_trip() {
    let s = SStr::from_str("boundary");
    assert_eq!(s.to_str(), "boundary");
    assert_eq!(s.into_normal(), "boundary");

    let s = SStr::from_normal("πλ");
    assert_eq!(s.into_normal(), "πλ");

    let s = SStr::from_str("ab");
    assert_eq!(s.as_byte_slice().to_slice(), b"ab");
}

#[test]
fn soption_round_trip() {
    assert_eq!(SOption::from_option(Some(3u8)).into_option(), Some(3u8));
    assert_eq!(SOption::<u8>::from_option(None).into_option(), None);
    assert_eq!(SOption::from_normal(Some("x")).into_normal(), Some("x"));
    assert!(matches!(SOption::from_option(Some(1u8)), SOption::SSome(1)));
    assert!(matches!(SOption::<u8>::from_option(None), SOption::SNone));
}

#[test]
fn sresult_round_trip() {
    let ok: Result<u8, &str> = Ok(1);
    let err: Result<u8, &str> = Err("bad");
    assert_eq!(SResult::from_result(ok).into_result(), Ok(1));
    assert_eq!(SResult::from_result(err).into_result(), Err("bad"));
    assert_eq!(SResult::<u8, &str>::from_normal(Ok(2)).into_normal(), Ok(2));
    assert!(matches!(SResult::<u8, &str>::from_result(Ok(1)), SResult::SOk(1)));
}

#[test]
fn stuple2_round_trip() {
    let t = STuple2::from_normal((1u8, "two"));
    assert_eq!(t.0, 1);
    assert_eq!(t.1, "two");
    assert_eq!(t.into_normal(), (1u8, "two"));
}

#[test]
fn sunit_round_trip() {
    let u = SUnit::from_normal(());
    assert_eq!(u, SUnit::new());
    u.into_normal();
}

#[test]
fn sglobal_handle() {
    assert_eq!(SGlobal::new(), SGlobal::default());
}

#[test]
fn maybe_panicked_outcomes() {
    let ok: MaybePanicked<u32> = MaybePanicked::SOk(11);
    let bad: MaybePanicked<u32> = MaybePanicked::Panicked;
    assert!(ok.is_ok());
    assert!(!bad.is_ok());
    assert_eq!(ok.unwrap_or(0), 11);
    assert_eq!(bad.unwrap_or(0), 0);
}

#[test]
fn smutslice_round_trip() {
    let mut data = [1u8, 2, 3];
    let s = SMutSlice::from_slice(&mut data);
    assert_eq!(s.to_slice(), &[1, 2, 3]);
    let back = s.into_slice();
    back[0] = 9;
    assert_eq!(data, [9, 2, 3]);

    let s = SMutSlice::from_normal(&mut data);
    assert_eq!(s.into_normal(), &mut [9u8, 2, 3]);
}

#[test]
fn smutstr_round_trip() {
    let mut text = String::from("edge");
    let s = SMutStr::from_normal(text.as_mut_str());
    assert_eq!(s.to_str(), "edge");
    let back = s.into_normal();
    back.make_ascii_uppercase();
    assert_eq!(text, "EDGE");
}

#[test]
fn sslice_handle_can_be_redirected() {
    let a = [1u8, 2, 3];
    let b = [9u8];
    let mut s = SSlice::from_slice(&a);
    let prev = s.as_slice_mut(&b);
    assert_eq!(prev, &a);
    assert_eq!(s.to_slice(), &b);
}
