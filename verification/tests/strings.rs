use pcore::release_pool::{autoreleasepool, ReleasePool};
use pcore::string::{IntoParameterString, OwnedString, PStr, ParameterString, U16ZErasedLength};

/// Leaks an encoded buffer so it has program lifetime, standing in for the
/// compile-time embedding a build step would do.
fn static_units(s: &str) -> &'static [u16] {
    let mut v: Vec<u16> = s.encode_utf16().collect();
    v.push(0);
    Box::leak(v.into_boxed_slice())
}

#[test]
fn from_owned_string() {
    let f = "my test string".to_owned();
    autoreleasepool(|pool| {
        let owned = OwnedString::new(f, pool);
        assert!(owned.to_string().unwrap() == "my test string");
    });
}

#[test]
fn str_into() {
    let f = "https://sealedabstract.com";
    let pool = ReleasePool::new();
    let ps = f.into_parameter_string(&pool);
    let mut h = pcore::trampoline::HStringHeader::new();
    let hstr = ps.into_hstring_trampoline(&mut h).unwrap();
    println!("hstr {:?}", hstr);
    assert_eq!(hstr.u16z_view().utf16z_slice(), static_units(f));
}

#[test]
fn static_into() {
    let f = PStr(static_units("https://sealedabstract.com"));
    let pool = ReleasePool::new();
    let ps = f.into_parameter_string(&pool);
    let mut h = pcore::trampoline::HStringHeader::new();
    let hstr = ps.into_hstring_trampoline(&mut h).unwrap();
    println!("hstr {:?}", hstr);
    assert!(matches!(ps, ParameterString::Borrowed(_)));
}

#[test]
fn to_string() {
    let p = PStr(static_units("Hello world"));
    assert_eq!(p.to_string().unwrap(), "Hello world");
}

#[test]
fn static_round_trip_is_zero_copy() {
    let p = PStr(static_units("hello world"));
    assert_eq!(p.to_string().unwrap(), "hello world");
    let pool = ReleasePool::new();
    let ps = p.into_parameter_string(&pool);
    assert!(matches!(ps, ParameterString::Borrowed(_)));
}

#[test]
fn empty_conversion_is_terminated() {
    let pool = ReleasePool::new();
    let ps = "".into_parameter_string(&pool);
    let view = ps.u16z_view();
    let slice = view.utf16z_slice();
    assert_eq!(slice, &[0u16]);
    let erased = U16ZErasedLength::with_u16_z_unknown_length(slice);
    assert_eq!(erased.len_with_z(), 1);
    let mut h = pcore::trampoline::HStringHeader::new();
    let hstr = ps.into_hstring_trampoline(&mut h).unwrap();
    assert_eq!(hstr.as_hstring().reported_len(), 0);
}

#[test]
fn erased_length_scan() {
    let buffer: [u16; 5] = [104, 105, 0, 0, 0];
    let erased = U16ZErasedLength::with_u16_z_unknown_length(&buffer);
    assert_eq!(erased.len_with_z(), 3);
    let known = erased.find_length();
    assert_eq!(known.utf16z_slice(), &[104, 105, 0]);
}

#[test]
fn round_trip_supplementary_plane() {
    let pool = ReleasePool::new();
    let text = "caf\u{e9} \u{1D11E}\u{20AC}";
    let ps = text.into_parameter_string(&pool);
    let units = ps.u16z_view().utf16z_slice().to_vec();
    let mut expected: Vec<u16> = text.encode_utf16().collect();
    expected.push(0);
    assert_eq!(units, expected);
    assert_eq!(
        units,
        vec![99, 97, 102, 0xE9, 32, 0xD834, 0xDD1E, 0x20AC, 0]
    );
    let owned = ps.u16z_view().to_owned();
    assert_eq!(owned.to_string().unwrap(), text);
    let wide = widestring::U16Str::from_slice(&units[..units.len() - 1]);
    assert_eq!(wide.to_string().unwrap(), text);
}

#[test]
fn malformed_units_fail_loudly() {
    let lone_high: [u16; 2] = [0xD800, 0];
    let erased = U16ZErasedLength::with_u16_z_unknown_length(&lone_high);
    assert!(erased.find_length().to_owned().to_string().is_none());

    let misordered: [u16; 3] = [0xDC00, 0xD800, 0];
    let erased = U16ZErasedLength::with_u16_z_unknown_length(&misordered);
    assert!(erased.find_length().to_owned().to_string().is_none());
}

#[test]
fn equality_over_view_content() {
    let pool = ReleasePool::new();
    let a = "abc".into_parameter_string(&pool);
    let b = PStr(static_units("abc")).into_parameter_string(&pool);
    assert!(a == b);
    let c = "abd".into_parameter_string(&pool);
    assert!(a != c);
}

#[test]
fn owned_string_takes_backing() {
    let pool = ReleasePool::new();
    let ps = "take me".into_parameter_string(&pool);
    let owned = OwnedString::new(ps, &pool);
    assert_eq!(owned.to_string().unwrap(), "take me");
    let again = OwnedString::new(&owned, &pool);
    assert_eq!(again.to_string().unwrap(), "take me");
}

#[test]
fn interior_nul_is_kept() {
    let pool = ReleasePool::new();
    let text = "a\u{0}b";
    let ps = text.into_parameter_string(&pool);
    assert_eq!(ps.u16z_view().utf16z_slice(), &[97, 0, 98, 0]);
    let owned = ps.u16z_view().to_owned();
    assert_eq!(owned.to_string().unwrap(), text);
}
