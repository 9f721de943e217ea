use vstd::prelude::*;
use crate::errors::ReadError;
use crate::ids::{GeometryId, TexId};
use crate::resource::{GfxResource, ResourceSetter};
use crate::set_get::Setter;

verus! {

/// The kinds of resource that the backend stores.
#[derive(PartialEq, Eq, Structural, Clone, Copy, Debug)]
pub enum ResourceKind {
    Tex,
    Geometry,
}

/// An identifier type of one resource kind, with the data stored under it.
pub trait ResId: Copy + Sized {
    type Data;

    /// The raw value of the id.
    spec fn raw_id(&self) -> u64;

    /// The kind of resource this id type names.
    spec fn kind() -> ResourceKind;

    /// The raw value of the id.
    fn to_raw_id(&self) -> (r: u64)
        ensures
            r == self.raw_id(),
    ;

    /// The kind of resource this id type names.
    fn kind_value() -> (r: ResourceKind)
        ensures
            r == Self::kind(),
    ;

    /// The backend task of this kind that carries an add task.
    spec fn wrap_add(task: AddTask<Self, Self::Data>) -> BackendTask;

    /// The backend task of this kind that carries a remove task.
    spec fn wrap_remove(task: RemoveTask<Self>) -> BackendTask;

    /// The backend task of this kind that carries a read task.
    spec fn wrap_read(task: ReadTask<Self, Self::Data>) -> BackendTask;

    /// Wraps an add task into the backend task of this kind.
    fn add(task: AddTask<Self, Self::Data>) -> (r: BackendTask)
        ensures
            r == Self::wrap_add(task),
            r.kind() == Self::kind(),
            r.removal() is None,
    ;

    /// Wraps a remove task into the backend task of this kind.
    fn remove(task: RemoveTask<Self>) -> (r: BackendTask)
        ensures
            r == Self::wrap_remove(task),
            r.kind() == Self::kind(),
            r.removal() == Some(task.target().raw_id()),
    ;

    /// Wraps a read task into the backend task of this kind.
    fn read(task: ReadTask<Self, Self::Data>) -> (r: BackendTask)
        ensures
            r == Self::wrap_read(task),
            r.kind() == Self::kind(),
            r.removal() is None,
    ;
}

/// Pixels of a texture.
#[derive(Clone, Debug, PartialEq, Eq)]
pub struct TexData {
    pub width: u32,
    pub height: u32,
    pub pixels: Vec<u8>,
}

/// Indices and raw vertex bytes of a geometry.
#[derive(Clone, Debug, PartialEq, Eq)]
pub struct GeometryData {
    pub indices: Vec<u32>,
    pub vertices: Vec<u8>,
}

/// Store `data` as a new resource and hand its handle to the setter.
#[verifier::reject_recursive_types(R)]
#[verifier::reject_recursive_types(D)]
pub struct AddTask<R, D> {
    data: D,
    result_setter: ResourceSetter<R>,
}

impl<R, D> AddTask<R, D> {
    pub fn new(data: D, result_setter: ResourceSetter<R>) -> (r: Self)
        ensures
            r.data_view() == data,
            r.setter_view() == result_setter,
    {
        AddTask { data, result_setter }
    }

    pub closed spec fn data_view(&self) -> D {
        self.data
    }

    /// The setter that takes the outcome.
    pub closed spec fn setter_view(&self) -> ResourceSetter<R> {
        self.result_setter
    }

    pub fn data(&self) -> (r: &D)
        ensures
            *r == self.data_view(),
    {
        &self.data
    }

    /// The data to store and the setter that takes the new resource.
    pub fn into_inner(self) -> (r: (D, ResourceSetter<R>))
        ensures
            r.0 == self.data_view(),
            r.1 == self.setter_view(),
    {
        (self.data, self.result_setter)
    }
}

/// Free the storage of a resource.
#[verifier::reject_recursive_types(R)]
pub struct RemoveTask<R> {
    id: R,
}

impl<R> RemoveTask<R> {
    pub closed spec fn target(&self) -> R {
        self.id
    }

    pub fn new(id: R) -> (r: Self)
        ensures
            r.target() == id,
    {
        RemoveTask { id }
    }

    pub fn into_inner(self) -> (r: R)
        ensures
            r == self.target(),
    {
        self.id
    }
}

/// Read back the data of a resource. The task holds a handle of the
/// resource, so it stays stored until the read has been answered.
#[verifier::reject_recursive_types(R)]
#[verifier::reject_recursive_types(D)]
pub struct ReadTask<R, D> {
    resource: GfxResource<R>,
    result_setter: Setter<Result<D, ReadError>>,
}

impl<R: ResId, D> ReadTask<R, D> {
    pub closed spec fn target(&self) -> R {
        self.resource.res_id()
    }

    /// The setter that takes the data read.
    pub closed spec fn setter_view(&self) -> Setter<Result<D, ReadError>> {
        self.result_setter
    }

    pub fn new(resource: GfxResource<R>, result_setter: Setter<Result<D, ReadError>>) -> (r:
        Self)
        ensures
            r.target() == resource.res_id(),
            r.setter_view() == result_setter,
    {
        ReadTask { resource, result_setter }
    }

    /// The id to read.
    pub fn id(&self) -> (r: R)
        ensures
            r == self.target(),
    {
        self.resource.id()
    }

    /// The resource handle and the setter that takes the data.
    pub fn into_inner(self) -> (r: (GfxResource<R>, Setter<Result<D, ReadError>>))
        ensures
            r.0.res_id() == self.target(),
            r.1 == self.setter_view(),
    {
        (self.resource, self.result_setter)
    }
}

/// A task on resources of one kind.
#[verifier::reject_recursive_types(R)]
#[verifier::reject_recursive_types(D)]
pub enum ResourceTask<R, D> {
    Add(AddTask<R, D>),
    Remove(RemoveTask<R>),
    Read(ReadTask<R, D>),
}

/// A task that the backend runs on the orchestration thread.
pub enum BackendTask {
    Tex(ResourceTask<TexId, TexData>),
    Geometry(ResourceTask<GeometryId, GeometryData>),
}

impl BackendTask {
    pub open spec fn kind(&self) -> ResourceKind {
        match self {
            BackendTask::Tex(_) => ResourceKind::Tex,
            BackendTask::Geometry(_) => ResourceKind::Geometry,
        }
    }

    /// For a removal task, the raw id of the resource it removes.
    pub open spec fn removal(&self) -> Option<u64> {
        match self {
            BackendTask::Tex(ResourceTask::Remove(t)) => Some(t.target().raw()),
            BackendTask::Geometry(ResourceTask::Remove(t)) => Some(t.target().raw()),
            _ => None,
        }
    }

    pub fn kind_of(&self) -> (r: ResourceKind)
        ensures
            r == self.kind(),
    {
        match self {
            BackendTask::Tex(_) => ResourceKind::Tex,
            BackendTask::Geometry(_) => ResourceKind::Geometry,
        }
    }

    /// For a removal task, the raw id of the resource it removes.
    pub fn removed_id(&self) -> (r: Option<u64>)
        ensures
            r == self.removal(),
    {
        match self {
            BackendTask::Tex(ResourceTask::Remove(t)) => Some(t.id.to_raw()),
            BackendTask::Geometry(ResourceTask::Remove(t)) => Some(t.id.to_raw()),
            _ => None,
        }
    }
}

impl ResId for TexId {
    type Data = TexData;

    open spec fn raw_id(&self) -> u64 {
        self.raw()
    }

    open spec fn kind() -> ResourceKind {
        ResourceKind::Tex
    }

    fn to_raw_id(&self) -> (r: u64) {
        self.to_raw()
    }

    fn kind_value() -> (r: ResourceKind) {
        ResourceKind::Tex
    }

    open spec fn wrap_add(task: AddTask<Self, TexData>) -> BackendTask {
        BackendTask::Tex(ResourceTask::Add(task))
    }

    open spec fn wrap_remove(task: RemoveTask<Self>) -> BackendTask {
        BackendTask::Tex(ResourceTask::Remove(task))
    }

    open spec fn wrap_read(task: ReadTask<Self, TexData>) -> BackendTask {
        BackendTask::Tex(ResourceTask::Read(task))
    }

    fn add(task: AddTask<Self, Self::Data>) -> (r: BackendTask) {
        BackendTask::Tex(ResourceTask::Add(task))
    }

    fn remove(task: RemoveTask<Self>) -> (r: BackendTask) {
        BackendTask::Tex(ResourceTask::Remove(task))
    }

    fn read(task: ReadTask<Self, Self::Data>) -> (r: BackendTask) {
        BackendTask::Tex(ResourceTask::Read(task))
    }
}

impl ResId for GeometryId {
    type Data = GeometryData;

    open spec fn raw_id(&self) -> u64 {
        self.raw()
    }

    open spec fn kind() -> ResourceKind {
        ResourceKind::Geometry
    }

    fn to_raw_id(&self) -> (r: u64) {
        self.to_raw()
    }

    fn kind_value() -> (r: ResourceKind) {
        ResourceKind::Geometry
    }

    open spec fn wrap_add(task: AddTask<Self, GeometryData>) -> BackendTask {
        BackendTask::Geometry(ResourceTask::Add(task))
    }

    open spec fn wrap_remove(task: RemoveTask<Self>) -> BackendTask {
        BackendTask::Geometry(ResourceTask::Remove(task))
    }

    open spec fn wrap_read(task: ReadTask<Self, GeometryData>) -> BackendTask {
        BackendTask::Geometry(ResourceTask::Read(task))
    }

    fn add(task: AddTask<Self, Self::Data>) -> (r: BackendTask) {
        BackendTask::Geometry(ResourceTask::Add(task))
    }

    fn remove(task: RemoveTask<Self>) -> (r: BackendTask) {
        BackendTask::Geometry(ResourceTask::Remove(task))
    }

    fn read(task: ReadTask<Self, Self::Data>) -> (r: BackendTask) {
        BackendTask::Geometry(ResourceTask::Read(task))
    }
}

} // verus!
