use gfx_core::channel::TasksChannel;
use gfx_core::counter::TaskCounter;
use gfx_core::ids::{new_unique_id, GeometryId, IdCounter, StaticMeshId, TexId, WindowId};
use gfx_core::once::OnceData;
use gfx_core::tasks::{BackendTask, RemoveTask, ResourceKind, ResourceTask};

fn remove_tex(raw: u64) -> BackendTask {
    BackendTask::Tex(ResourceTask::Remove(RemoveTask::new(TexId::from_raw(raw))))
}

#[test]
fn fifo_per_sender() {
    let channel = TasksChannel::new();
    let mut sender = channel.sender();
    sender.send(remove_tex(1));
    sender.send(remove_tex(2));
    sender.send(remove_tex(3));
    assert_eq!(channel.pop().and_then(|t| t.removed_id()), Some(1));
    assert_eq!(channel.pop().and_then(|t| t.removed_id()), Some(2));
    assert_eq!(channel.pop().and_then(|t| t.removed_id()), Some(3));
    assert!(channel.pop().is_none());
}

#[test]
fn pop_all_keeps_order_of_cloned_sender() {
    let channel = TasksChannel::new();
    let mut first = channel.sender();
    let mut second = first.clone();
    second.send(remove_tex(10));
    second.send(remove_tex(11));
    first.send(remove_tex(12));
    let all = channel.pop_all();
    let ids: Vec<Option<u64>> = all.iter().map(|t| t.removed_id()).collect();
    assert_eq!(ids, vec![Some(10), Some(11), Some(12)]);
    assert!(channel.pop_all().is_empty());
}

#[test]
fn send_after_channel_dropped_is_silent() {
    let channel = TasksChannel::new();
    let mut sender = channel.sender();
    drop(channel);
    sender.send(remove_tex(4));
}

#[test]
fn backend_task_kinds() {
    let t = BackendTask::Geometry(ResourceTask::Remove(RemoveTask::new(GeometryId::from_raw(9))));
    assert_eq!(t.kind_of(), ResourceKind::Geometry);
    assert_eq!(t.removed_id(), Some(9));
    assert_eq!(remove_tex(3).kind_of(), ResourceKind::Tex);
}

#[test]
fn counter_drains_after_all_finish() {
    let mut counter = TaskCounter::new();
    assert!(counter.is_drained());
    for _ in 0..5 {
        counter.inc();
    }
    assert_eq!(counter.count(), 5);
    counter.dec();
    counter.dec();
    assert_eq!(counter.count(), 3);
    for _ in 0..3 {
        counter.dec();
    }
    assert_eq!(counter.count(), 0);
    assert!(counter.is_drained());
}

#[test]
fn ids_are_minted_in_sequence() {
    let mut counter = IdCounter::new();
    assert_eq!(new_unique_id(&mut counter), 0);
    assert_eq!(new_unique_id(&mut counter), 1);
    let t = TexId::new_unique(&mut counter);
    let g = GeometryId::new_unique(&mut counter);
    let m = StaticMeshId::new_unique(&mut counter);
    let w = WindowId::new_unique(&mut counter);
    assert_eq!(t.to_raw(), 2);
    assert_eq!(g.to_raw(), 3);
    assert_eq!(m.to_raw(), 4);
    assert_eq!(w.to_raw(), 5);
    assert_eq!(TexId::from_raw(2), t);
}

#[test]
fn id_counter_at_the_end() {
    let mut counter = IdCounter::starting_at(u64::MAX - 1);
    assert!(counter.has_next());
    assert_eq!(new_unique_id(&mut counter), u64::MAX - 1);
    assert!(!counter.has_next());
}

#[test]
fn once_data_takes_once() {
    let mut d = OnceData::new(String::from("payload"));
    assert!(!d.taken());
    assert_eq!(d.take(), "payload");
    assert!(d.taken());
    assert_eq!(d.try_take(), None);
}
