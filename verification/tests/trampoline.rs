use pcore::release_pool::ReleasePool;
use pcore::string::IntoParameterString;
use pcore::trampoline::HStringHeader;

#[test]
fn trampoline_full_call_sequence() {
    let pool = ReleasePool::new();
    let text = "fast pass";
    let ps = text.into_parameter_string(&pool);
    let mut header = HStringHeader::new();
    let overlay = ps.into_hstring_trampoline(&mut header).unwrap();

    // What a native consumer would read, by reference only: the handle is
    // never handed over by value, so no destruction path can take it.
    let handle = overlay.as_hstring();
    assert_eq!(handle.reported_len() as usize, text.encode_utf16().count());
    let slice = handle.utf16z_slice();
    assert_eq!(slice[slice.len() - 1], 0);
    assert_eq!(overlay.u16z_view().to_owned().to_string().unwrap(), text);

    // After the call the overlay goes away; the same header storage and
    // source string serve the next call unchanged.
    drop(overlay);
    let overlay = ps.into_hstring_trampoline(&mut header).unwrap();
    assert_eq!(overlay.u16z_view().to_owned().to_string().unwrap(), text);
}

#[test]
fn trampoline_over_owned_backing() {
    let pool = ReleasePool::new();
    let ps = String::from("owned backing").into_parameter_string(&pool);
    let mut header = HStringHeader::new();
    let overlay = ps.into_hstring_trampoline(&mut header).unwrap();
    assert_eq!(
        overlay.as_hstring().reported_len() as usize,
        "owned backing".encode_utf16().count()
    );
    assert_eq!(overlay.u16z_view().to_owned().to_string().unwrap(), "owned backing");
}
