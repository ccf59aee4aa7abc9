//! The channel and registry: registration, recycling, broadcast
//! eviction, teardown, and id lifecycle.

use crow::channel::Channel;
use crow::errors::Error;
use crow::registry::ChannelRegistry;
use futures::channel::mpsc::{unbounded, UnboundedReceiver, UnboundedSender};

fn endpoint() -> (UnboundedSender<Vec<u8>>, UnboundedReceiver<Vec<u8>>) {
    unbounded::<Vec<u8>>()
}

#[test]
fn register_assigns_increasing_indices() {
    let mut channel = Channel::new();
    let (tx1, _rx1) = endpoint();
    let (tx2, _rx2) = endpoint();
    let (tx3, _rx3) = endpoint();
    assert_eq!(channel.register(tx1), 0);
    assert_eq!(channel.register(tx2), 1);
    assert_eq!(channel.register(tx3), 2);
    assert_eq!(channel.count(), 3);
}

#[test]
fn register_recycles_freed_slot() {
    let mut channel = Channel::new();
    let (tx1, _rx1) = endpoint();
    let (tx2, _rx2) = endpoint();
    let (tx3, _rx3) = endpoint();
    channel.register(tx1);
    let middle = channel.register(tx2);
    channel.register(tx3);
    assert!(channel.deregister(middle).is_some());
    let (tx4, _rx4) = endpoint();
    assert_eq!(channel.register(tx4), middle);
    assert_eq!(channel.count(), 3);
}

#[test]
fn register_then_deregister_returns_endpoint_and_count() {
    let mut channel = Channel::new();
    let (tx0, _rx0) = endpoint();
    channel.register(tx0);
    let before = channel.count();

    let (tx, _rx) = endpoint();
    let index = channel.register(tx.clone());
    let back = channel.deregister(index).expect("the endpoint must come back");
    assert!(back.same_receiver(&tx));
    assert_eq!(channel.count(), before);
}

#[test]
fn double_deregister_is_safe() {
    let mut channel = Channel::new();
    let (tx, _rx) = endpoint();
    let index = channel.register(tx);
    assert!(channel.deregister(index).is_some());
    assert!(channel.deregister(index).is_none());
    assert_eq!(channel.count(), 0);
}

#[test]
fn broadcast_delivers_one_copy_to_each_subscriber() {
    let mut channel = Channel::new();
    let (tx1, mut rx1) = endpoint();
    let (tx2, mut rx2) = endpoint();
    channel.register(tx1);
    channel.register(tx2);
    let evicted = channel.broadcast(&b"payload".to_vec());
    assert!(evicted.is_empty());
    assert_eq!(rx1.try_next().unwrap().unwrap(), b"payload".to_vec());
    assert!(rx1.try_next().is_err(), "no second copy may arrive");
    assert_eq!(rx2.try_next().unwrap().unwrap(), b"payload".to_vec());
    assert!(rx2.try_next().is_err(), "no second copy may arrive");
}

#[test]
fn broadcast_evicts_failing_subscriber_and_keeps_other() {
    let mut channel = Channel::new();
    let (tx_ok, mut rx_ok) = endpoint();
    let (tx_broken, rx_broken) = endpoint();
    let ok_index = channel.register(tx_ok);
    let broken_index = channel.register(tx_broken);
    drop(rx_broken);

    let evicted = channel.broadcast(&b"curve".to_vec());
    assert_eq!(evicted, vec![broken_index]);
    assert_eq!(channel.count(), 1);
    assert!(channel.deregister(broken_index).is_none(), "the failing subscriber is absent");

    assert_eq!(rx_ok.try_next().unwrap().unwrap(), b"curve".to_vec());
    assert!(rx_ok.try_next().is_err(), "exactly one copy for the healthy subscriber");
    assert!(channel.deregister(ok_index).is_some());
}

#[test]
fn send_reaches_single_subscriber() {
    let mut channel = Channel::new();
    let (tx, mut rx) = endpoint();
    let index = channel.register(tx);
    assert!(channel.send(index, b"one".to_vec()));
    assert_eq!(rx.try_next().unwrap().unwrap(), b"one".to_vec());
    assert!(!channel.send(index + 1, b"two".to_vec()), "a free slot takes nothing");
}

#[test]
fn deregister_all_closes_every_endpoint() {
    let mut channel = Channel::new();
    let (tx1, _rx1) = endpoint();
    let (tx2, _rx2) = endpoint();
    let watcher = tx1.clone();
    channel.register(tx1);
    channel.register(tx2);
    channel.deregister_all();
    assert_eq!(channel.count(), 0);
    assert!(watcher.is_closed(), "teardown closes the endpoint's queue");
}

#[test]
fn registry_lookup_finds_live_channel() {
    let mut registry = ChannelRegistry::new();
    let id = registry.new_channel();
    assert!(registry.get_channel(id).is_ok());
    assert_eq!(registry.get_channel(id + 1).err(), Some(Error::NotFound));
}

#[test]
fn removed_channel_id_is_not_found() {
    let mut registry = ChannelRegistry::new();
    let id = registry.new_channel();
    assert!(registry.get_channel(id).is_ok());
    assert_eq!(registry.remove_channel(id), Ok(()));
    assert_eq!(registry.get_channel(id).err(), Some(Error::NotFound));
    assert_eq!(registry.remove_channel(id), Err(Error::NotFound));
}

#[test]
fn removing_a_channel_closes_its_subscribers() {
    let mut registry = ChannelRegistry::new();
    let id = registry.new_channel();
    let (tx, _rx) = endpoint();
    let watcher = tx.clone();
    registry.register(id, tx).expect("the channel exists");
    registry.remove_channel(id).expect("the channel exists");
    assert!(watcher.is_closed());
}

#[test]
fn registry_recycles_removed_ids() {
    let mut registry = ChannelRegistry::new();
    let first = registry.new_channel();
    let second = registry.new_channel();
    registry.remove_channel(first).unwrap();
    assert_eq!(registry.new_channel(), first);
    assert!(registry.get_channel(first).is_ok());
    assert!(registry.get_channel(second).is_ok());
}

#[test]
fn broadcast_on_empty_channel_does_nothing() {
    let mut channel = Channel::new();
    let evicted = channel.broadcast(&b"nobody listens".to_vec());
    assert!(evicted.is_empty());
    assert_eq!(channel.count(), 0);
}

#[test]
fn registry_deregister_all_keeps_the_channel() {
    let mut registry = ChannelRegistry::new();
    let id = registry.new_channel();
    let (tx, _rx) = endpoint();
    let watcher = tx.clone();
    registry.register(id, tx).unwrap();
    assert_eq!(registry.deregister_all(id), Ok(()));
    assert!(watcher.is_closed());
    assert!(registry.get_channel(id).is_ok(), "teardown of subscribers keeps the id allocated");
    assert_eq!(registry.deregister_all(id + 3), Err(Error::NotFound));
}

#[test]
fn registry_delegates_to_the_addressed_channel() {
    let mut registry = ChannelRegistry::new();
    let id = registry.new_channel();
    let (tx, mut rx) = endpoint();
    let index = registry.register(id, tx).expect("the channel exists");

    let evicted = registry.broadcast(id, &b"fanout".to_vec()).expect("the channel exists");
    assert!(evicted.is_empty());
    assert_eq!(rx.try_next().unwrap().unwrap(), b"fanout".to_vec());

    let back = registry.deregister(id, index).expect("the channel exists");
    assert!(back.is_some());

    let (tx2, _rx2) = endpoint();
    assert_eq!(registry.register(id + 7, tx2).err(), Some(Error::NotFound));
    assert_eq!(registry.broadcast(id + 7, &Vec::new()).err(), Some(Error::NotFound));
    assert_eq!(registry.deregister(id + 7, 0).err(), Some(Error::NotFound));
}
