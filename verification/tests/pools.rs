use pcore::release_pool::{autoreleasepool, PoolStack, ReleasePool};
use pcore::string::IntoParameterString;

#[test]
fn nested_release_order() {
    let mut stack = PoolStack::new();
    let a = stack.acquire();
    let b = stack.acquire();
    assert!(stack.release(&a).is_err());
    assert!(stack.release(&b).is_ok());
    assert!(stack.release(&a).is_ok());
    assert!(stack.release(&a).is_err());
}

#[test]
fn marker_token_is_detected() {
    let mut stack = PoolStack::new();
    let a = stack.acquire();
    let marker = ReleasePool::new();
    assert!(stack.release(&marker).is_err());
    assert!(stack.release(&a).is_ok());
}

#[test]
fn autoreleasepool_passes_result_through() {
    let r = autoreleasepool(|_pool| 41 + 1);
    assert_eq!(r, 42);
}

#[test]
fn autoreleasepool_supplies_usable_token() {
    let text = autoreleasepool(|pool| {
        let ps = "scoped".into_parameter_string(pool);
        ps.u16z_view().to_owned()
    });
    assert_eq!(text.to_string().unwrap(), "scoped");
}
