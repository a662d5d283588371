use frost::errors::Error;
use frost::handles::Registry;

#[test]
fn take_succeeds_exactly_once() {
    let mut registry: Registry<u64> = Registry::new();
    let h = registry.publish(42);
    assert_eq!(registry.take(h).unwrap(), 42);
    assert_eq!(registry.take(h).unwrap_err(), Error::InvalidHandle);
    assert_eq!(registry.take(h).unwrap_err(), Error::InvalidHandle);
}

#[test]
fn unknown_handle_is_rejected() {
    let mut registry: Registry<u64> = Registry::new();
    assert_eq!(registry.take(0).unwrap_err(), Error::InvalidHandle);
    let h = registry.publish(7);
    assert_eq!(registry.take(h + 1).unwrap_err(), Error::InvalidHandle);
    assert_eq!(registry.take(h).unwrap(), 7);
}

#[test]
fn handles_are_never_reused() {
    let mut registry: Registry<u64> = Registry::new();
    let a = registry.publish(1);
    let b = registry.publish(2);
    assert_ne!(a, b);
    registry.take(a).unwrap();
    let c = registry.publish(3);
    assert_ne!(c, a);
    assert_ne!(c, b);
    assert_eq!(registry.take(b).unwrap(), 2);
    assert_eq!(registry.take(c).unwrap(), 3);
}
