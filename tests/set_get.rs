use gfx_core::errors::GetError;
use gfx_core::pipe::Received;
use gfx_core::set_get::{resolve, setter_getter, Getter, Setter};

#[test]
fn getter_not_ready_before_set() {
    let (_setter, mut getter): (Setter<u32>, Getter<u32>) = setter_getter();
    assert!(matches!(getter.try_get(), Err(GetError::NotReady)));
    assert!(!getter.is_taken());
}

#[test]
fn getter_single_delivery() {
    let (mut setter, mut getter) = setter_getter();
    assert!(setter.set(7u32));
    assert!(matches!(getter.try_get(), Ok(7)));
    assert!(getter.is_taken());
    assert!(matches!(getter.try_get(), Err(GetError::AlreadyTaken)));
    assert!(matches!(getter.try_get(), Err(GetError::AlreadyTaken)));
}

#[test]
fn setter_second_set_is_ignored() {
    let (mut setter, mut getter) = setter_getter();
    assert!(setter.set(String::from("first")));
    assert!(setter.is_set());
    assert!(!setter.set(String::from("second")));
    match getter.try_get() {
        Ok(v) => assert_eq!(v, "first"),
        Err(e) => panic!("unexpected {:?}", e),
    }
    assert!(matches!(getter.try_get(), Err(GetError::AlreadyTaken)));
}

#[test]
fn dropped_setter_means_producer_gone() {
    let (setter, mut getter): (Setter<u8>, Getter<u8>) = setter_getter();
    assert!(matches!(getter.try_get(), Err(GetError::NotReady)));
    drop(setter);
    assert!(matches!(getter.try_get(), Err(GetError::ProducerGone)));
    assert!(matches!(getter.try_get(), Err(GetError::ProducerGone)));
    assert!(matches!(getter.wait(), Err(GetError::ProducerGone)));
}

#[test]
fn value_set_before_setter_drop_is_kept() {
    let (mut setter, mut getter) = setter_getter();
    setter.set(5i64);
    drop(setter);
    assert!(matches!(getter.wait(), Ok(5)));
    assert!(matches!(getter.wait(), Err(GetError::AlreadyTaken)));
}

#[test]
fn set_after_getter_dropped_does_not_panic() {
    let (mut setter, getter) = setter_getter();
    drop(getter);
    assert!(setter.set(vec![1u8, 2, 3]));
    assert!(!setter.set(vec![4u8]));
}

#[test]
fn resolve_maps_each_outcome() {
    assert!(matches!(resolve(Received::Value(3u8)), Ok(3)));
    assert!(matches!(resolve::<u8>(Received::Empty), Err(GetError::NotReady)));
    assert!(matches!(resolve::<u8>(Received::Disconnected), Err(GetError::ProducerGone)));
}
