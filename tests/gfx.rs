use gfx_core::errors::{GetError, GfxBackendUpdateError, ReadError, TaskError};
use gfx_core::gfx::{Gfx, GfxBackend};
use gfx_core::ids::{IdCounter, TexId};
use gfx_core::tasks::{BackendTask, ResourceTask, TexData};

/// Keeps textures in memory; refuses to store more than `capacity`.
struct MemBackend {
    ids: IdCounter,
    textures: Vec<(u64, TexData)>,
    removed: Vec<u64>,
    capacity: usize,
    broken: bool,
}

impl MemBackend {
    fn new(capacity: usize) -> Self {
        MemBackend {
            ids: IdCounter::new(),
            textures: Vec::new(),
            removed: Vec::new(),
            capacity,
            broken: false,
        }
    }

    fn contains(&self, id: TexId) -> bool {
        self.textures.iter().any(|(raw, _)| *raw == id.to_raw())
    }

    fn removals_of(&self, id: TexId) -> usize {
        self.removed.iter().filter(|raw| **raw == id.to_raw()).count()
    }
}

impl GfxBackend for MemBackend {
    fn run_task(&mut self, task: BackendTask) {
        match task {
            BackendTask::Tex(ResourceTask::Add(t)) => {
                let (data, mut setter) = t.into_inner();
                if self.textures.len() >= self.capacity {
                    setter.set_error(TaskError::NotEnoughResources);
                    return;
                }
                let id = TexId::new_unique(&mut self.ids);
                self.textures.push((id.to_raw(), data));
                setter.set_resource(id);
            }
            BackendTask::Tex(ResourceTask::Read(t)) => {
                let (resource, mut setter) = t.into_inner();
                let raw = resource.id().to_raw();
                match self.textures.iter().find(|(r, _)| *r == raw) {
                    Some((_, data)) => setter.set(Ok(data.clone())),
                    None => setter.set(Err(ReadError::NotFound)),
                };
            }
            BackendTask::Tex(ResourceTask::Remove(t)) => {
                let raw = t.into_inner().to_raw();
                self.textures.retain(|(r, _)| *r != raw);
                self.removed.push(raw);
            }
            BackendTask::Geometry(_) => {}
        }
    }

    fn update(&mut self) -> Result<bool, GfxBackendUpdateError> {
        if self.broken {
            return Err(GfxBackendUpdateError::CriticalError(String::from("device lost")));
        }
        Ok(false)
    }
}

fn texture(seed: u8) -> TexData {
    TexData { width: 2, height: 1, pixels: vec![seed, seed + 1, seed + 2, seed + 3] }
}

#[test]
fn add_read_drop_scenario() {
    let mut gfx = Gfx::new(MemBackend::new(8));
    let mut handler = gfx.create_handler();
    let mut added = handler.add_resource::<TexId>(texture(10));
    assert!(matches!(added.try_get(), Err(GetError::NotReady)));
    gfx.run_tasks();
    let resource = match added.try_get() {
        Ok(Ok(r)) => r,
        _ => panic!("texture was not stored"),
    };
    let id = resource.id();
    assert!(gfx.backend().contains(id));
    assert_eq!(gfx.watched_count(), 1);

    let mut read = handler.read_resource_data(&resource);
    gfx.run_tasks();
    match read.try_get() {
        Ok(Ok(data)) => assert_eq!(data, texture(10)),
        _ => panic!("texture was not read"),
    }

    drop(resource);
    assert!(gfx.backend().contains(id));
    gfx.run_tasks();
    assert!(!gfx.backend().contains(id));
    assert_eq!(gfx.backend().removals_of(id), 1);
    assert_eq!(gfx.watched_count(), 0);
}

#[test]
fn removal_happens_once_after_last_clone() {
    let mut gfx = Gfx::new(MemBackend::new(8));
    let mut handler = gfx.create_handler();
    let mut added = handler.add_resource::<TexId>(texture(1));
    gfx.run_tasks();
    let first = match added.try_get() {
        Ok(Ok(r)) => r,
        _ => panic!("texture was not stored"),
    };
    let id = first.id();
    let second = first.clone();
    let third = second.clone();
    assert_eq!(third.id(), id);
    drop(first);
    gfx.run_tasks();
    assert_eq!(gfx.backend().removals_of(id), 0);
    drop(third);
    gfx.run_tasks();
    assert_eq!(gfx.backend().removals_of(id), 0);
    assert!(gfx.backend().contains(id));
    drop(second);
    gfx.run_tasks();
    assert_eq!(gfx.backend().removals_of(id), 1);
    gfx.run_tasks();
    gfx.run_tasks();
    assert_eq!(gfx.backend().removals_of(id), 1);
    assert!(!gfx.backend().contains(id));
}

#[test]
fn pending_read_keeps_resource_alive() {
    let mut gfx = Gfx::new(MemBackend::new(8));
    let mut handler = gfx.create_handler();
    let mut added = handler.add_resource::<TexId>(texture(3));
    gfx.run_tasks();
    let resource = match added.try_get() {
        Ok(Ok(r)) => r,
        _ => panic!("texture was not stored"),
    };
    let id = resource.id();
    let mut read = handler.read_resource_data(&resource);
    drop(resource);
    gfx.run_tasks();
    match read.try_get() {
        Ok(Ok(data)) => assert_eq!(data, texture(3)),
        _ => panic!("read did not see the data"),
    }
    gfx.run_tasks();
    assert!(!gfx.backend().contains(id));
    assert_eq!(gfx.backend().removals_of(id), 1);
}

#[test]
fn same_data_loaded_twice_gets_distinct_ids() {
    let mut gfx = Gfx::new(MemBackend::new(8));
    let mut handler = gfx.create_handler();
    let mut other = handler.clone();
    let mut a = handler.add_resource::<TexId>(texture(5));
    let mut b = other.add_resource::<TexId>(texture(5));
    gfx.run_tasks();
    let ra = match a.try_get() {
        Ok(Ok(r)) => r,
        _ => panic!("first load failed"),
    };
    let rb = match b.try_get() {
        Ok(Ok(r)) => r,
        _ => panic!("second load failed"),
    };
    assert_ne!(ra.id(), rb.id());
    assert_eq!(gfx.watched_count(), 2);
}

#[test]
fn dropped_getter_discards_result() {
    let mut gfx = Gfx::new(MemBackend::new(8));
    let mut handler = gfx.create_handler();
    let added = handler.add_resource::<TexId>(texture(7));
    drop(added);
    gfx.run_tasks();
    let id = TexId::from_raw(0);
    assert_eq!(gfx.backend().removals_of(id), 1);
    assert!(!gfx.backend().contains(id));
    assert_eq!(gfx.watched_count(), 0);
}

#[test]
fn write_error_reaches_getter() {
    let mut gfx = Gfx::new(MemBackend::new(0));
    let mut handler = gfx.create_handler();
    let mut added = handler.add_resource::<TexId>(texture(2));
    gfx.run_tasks();
    assert!(matches!(added.try_get(), Ok(Err(TaskError::NotEnoughResources))));
    assert!(matches!(added.try_get(), Err(GetError::AlreadyTaken)));
}

#[test]
fn backend_failure_finishes_frontend() {
    let mut gfx = Gfx::new(MemBackend::new(8));
    assert!(gfx.is_working());
    assert!(matches!(gfx.update(), Ok(false)));
    let mut broken = MemBackend::new(8);
    broken.broken = true;
    let mut gfx = Gfx::new(broken);
    assert!(matches!(gfx.update(), Err(GfxBackendUpdateError::CriticalError(_))));
    assert!(!gfx.is_working());
    assert!(matches!(gfx.update(), Ok(false)));
    let mut handler = gfx.create_handler();
    let mut added = handler.add_resource::<TexId>(texture(1));
    gfx.run_tasks();
    assert!(matches!(added.try_get(), Err(GetError::NotReady)));
}

#[test]
fn settle_update_passes_result_on() {
    let mut gfx = Gfx::new(MemBackend::new(1));
    assert!(matches!(gfx.settle_update(Ok(true)), Ok(true)));
    assert!(gfx.is_working());
    let err = GfxBackendUpdateError::CriticalError(String::from("x"));
    assert!(gfx.settle_update(Err(err)).is_err());
    assert!(!gfx.is_working());
}
