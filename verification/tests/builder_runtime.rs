use thespis_impl::runtime::init;
use thespis_impl::{default_init, ActorBuilder, ChannelPlan, WasmRT, BOUNDED};

#[test]
fn default_channel_is_bounded_16() {
    let b: ActorBuilder<u8, u16> = ActorBuilder::new();
    let (plan, name) = b.plan();
    assert!(matches!(plan, ChannelPlan::Bounded(16)));
    assert_eq!(BOUNDED, 16);
    assert!(name.is_none());
}

#[test]
fn unbounded_channel() {
    let b: ActorBuilder<u8, u16> = ActorBuilder::new().bounded(None);
    assert!(matches!(b.plan().0, ChannelPlan::Unbounded));
}

#[test]
fn bounded_size_and_name() {
    let b: ActorBuilder<u8, u16> = ActorBuilder::new().bounded(Some(3)).name("sum");
    let (plan, name) = b.plan();
    assert!(matches!(plan, ChannelPlan::Bounded(3)));
    assert_eq!(name.as_deref(), Some("sum"));
}

#[test]
fn given_channel() {
    let b: ActorBuilder<u8, u16> = ActorBuilder::default().channel(1, 2);
    assert!(matches!(b.plan().0, ChannelPlan::Given(1, 2)));
}

#[test]
fn wasm_queue_until_run() {
    let mut rt: WasmRT<u8> = WasmRT::default();
    assert!(rt.spawn(1).is_none());
    assert!(rt.spawn(2).is_none());
    assert_eq!(rt.run(), vec![1, 2]);
    assert_eq!(rt.spawn(3), Some(3));
    assert!(rt.run().is_empty());
}

#[test]
fn executor_set_once() {
    let mut exec: Option<u8> = None;
    assert!(init(&mut exec, 1).is_ok());
    assert_eq!(init(&mut exec, 2), Err(2));
    assert_eq!(exec, Some(1));
}

#[test]
fn default_executor_only_when_none() {
    let mut exec: Option<u8> = None;
    default_init(&mut exec, || 4);
    assert_eq!(exec, Some(4));
    default_init(&mut exec, || 5);
    assert_eq!(exec, Some(4));
}

#[test]
fn bounded_is_remembered_even_at_the_default_size() {
    let b: ActorBuilder<u8, u16> = ActorBuilder::new();
    assert!(!b.bounded_was_set());
    let b = b.bounded(Some(BOUNDED));
    assert!(b.bounded_was_set());
    let b = b.name("x");
    assert!(b.bounded_was_set());
}

#[test]
fn default_init_twice_is_once() {
    let mut slot: Option<u8> = None;
    default_init(&mut slot, || 5);
    assert_eq!(slot, Some(5));
    default_init(&mut slot, || 6);
    assert_eq!(slot, Some(5));
    let mut set: Option<u8> = Some(1);
    default_init(&mut set, || 5);
    assert_eq!(set, Some(1));
}
