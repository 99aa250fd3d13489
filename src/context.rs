//! The runtime context: the one state object every host capability works on.
use crate::gpu::{Buffer, GpuBufferMapState, MapError, QuerySet, Texture};
use crate::handle_table::{Entry, Handle, ResourceTable, TableError};
use crate::input::{ActiveSet, InputId};
use crate::storage::{StorageDevice, StorageError, Storages};
use crate::surface::{Surface, SurfaceConfig};
use uuid::Uuid;
use vstd::prelude::*;

verus! {

/// Relies on `uuid::Uuid::new_v4`, read as an integer by `Uuid::as_u128`: a
/// random identity, of which nothing is promised.
#[verifier::external_body]
fn random_identity() -> (r: u128) {
    Uuid::new_v4().as_u128()
}

/// The kinds of graphics objects the host tracks by driver id alone.
#[derive(Clone, Copy, Debug, PartialEq, Eq, Hash, Structural)]
pub enum GpuKind {
    Adapter,
    Device,
    Queue,
    CommandEncoder,
    CommandBuffer,
    RenderPass,
    ComputePass,
    RenderBundle,
    RenderBundleEncoder,
    ShaderModule,
    BindGroup,
    BindGroupLayout,
    PipelineLayout,
    ComputePipeline,
    RenderPipeline,
    Sampler,
    TextureView,
    /// The texture a frame draws into, owned by the surface.
    SurfaceTexture,
}

/// What a guest handle stands for on the host: a native object's id, and for
/// buffers, textures and query sets the metadata the host keeps for it.
#[derive(Clone, Copy, Debug, PartialEq, Eq, Structural)]
pub enum NativeResource {
    Buffer { id: u64, record: Buffer },
    Texture { id: u64, record: Texture },
    QuerySet { id: u64, record: QuerySet },
    Gpu { kind: GpuKind, id: u64 },
    Audio { id: u64 },
    Network { id: u64 },
    Gamepad { id: u64 },
}

#[derive(Clone, Copy, Debug, PartialEq, Eq, Structural)]
pub enum HostError {
    InvalidHandle,
    HasChildren,
    Exhausted,
    /// The handle names a resource of another kind.
    WrongKind,
    BufferMap(MapError),
    Unsupported,
    /// The generation counter cannot advance any further.
    GenerationExhausted,
}

/// A map-state operation on a buffer.
#[derive(Clone, Copy, Debug, PartialEq, Eq, Hash, Structural)]
pub enum MapOp {
    Begin,
    Finish,
    Unmap,
}

/// The state a buffer moves to under `op`, or why it cannot.
pub open spec fn map_transition(s: GpuBufferMapState, op: MapOp) -> Result<
    GpuBufferMapState,
    MapError,
> {
    match op {
        MapOp::Begin => match s {
            GpuBufferMapState::Unmapped => Ok(GpuBufferMapState::Pending),
            GpuBufferMapState::Pending => Err(MapError::AlreadyPending),
            GpuBufferMapState::Mapped => Err(MapError::AlreadyMapped),
        },
        MapOp::Finish => match s {
            GpuBufferMapState::Pending => Ok(GpuBufferMapState::Mapped),
            _ => Err(MapError::NotPending),
        },
        MapOp::Unmap => match s {
            GpuBufferMapState::Unmapped => Err(MapError::NotMapped),
            _ => Ok(GpuBufferMapState::Unmapped),
        },
    }
}

/// The buffer registered under `h`, with its driver id.
pub open spec fn buffer_at(m: Map<Handle, Entry<NativeResource>>, h: Handle) -> Option<(u64, Buffer)> {
    if m.contains_key(h) {
        match m[h].value {
            NativeResource::Buffer { id, record } => Some((id, record)),
            _ => None,
        }
    } else {
        None
    }
}

/// The texture registered under `h`, with its driver id.
pub open spec fn texture_at(m: Map<Handle, Entry<NativeResource>>, h: Handle) -> Option<(u64, Texture)> {
    if m.contains_key(h) {
        match m[h].value {
            NativeResource::Texture { id, record } => Some((id, record)),
            _ => None,
        }
    } else {
        None
    }
}

/// The query set registered under `h`, with its driver id.
pub open spec fn query_set_at(m: Map<Handle, Entry<NativeResource>>, h: Handle) -> Option<
    (u64, QuerySet),
> {
    if m.contains_key(h) {
        match m[h].value {
            NativeResource::QuerySet { id, record } => Some((id, record)),
            _ => None,
        }
    } else {
        None
    }
}

/// The error for a handle that names no resource of the kind asked for.
pub open spec fn kind_error(m: Map<Handle, Entry<NativeResource>>, h: Handle) -> HostError {
    if m.contains_key(h) {
        HostError::WrongKind
    } else {
        HostError::InvalidHandle
    }
}

pub open spec fn table_error(e: TableError) -> HostError {
    match e {
        TableError::InvalidHandle => HostError::InvalidHandle,
        TableError::HasChildren => HostError::HasChildren,
        TableError::Exhausted => HostError::Exhausted,
    }
}

pub open spec fn storage_error(e: StorageError) -> HostError {
    match e {
        StorageError::InvalidHandle => HostError::InvalidHandle,
        StorageError::Unsupported => HostError::Unsupported,
        StorageError::Exhausted => HostError::Exhausted,
    }
}

fn from_table_error(e: TableError) -> (r: HostError)
    ensures
        r == table_error(e),
{
    match e {
        TableError::InvalidHandle => HostError::InvalidHandle,
        TableError::HasChildren => HostError::HasChildren,
        TableError::Exhausted => HostError::Exhausted,
    }
}

fn from_storage_error(e: StorageError) -> (r: HostError)
    ensures
        r == storage_error(e),
{
    match e {
        StorageError::InvalidHandle => HostError::InvalidHandle,
        StorageError::Unsupported => HostError::Unsupported,
        StorageError::Exhausted => HostError::Exhausted,
    }
}

pub struct RuntimeContext {
    /// Stable identity of the loaded program.
    pub id: u128,
    /// Logic generation: advances by one per logic tick and never goes back.
    pub generation: u64,
    pub surface: Surface,
    pub resources: ResourceTable<NativeResource>,
    pub inputs: ActiveSet,
    pub storages: Storages,
}

impl RuntimeContext {
    pub open spec fn wf(&self) -> bool {
        &&& self.resources.wf()
        &&& self.inputs.wf()
        &&& self.storages.wf()
    }

    /// A context for a program with identity `id`, drawing on a surface
    /// configured as `config`.
    pub fn new(id: u128, config: SurfaceConfig) -> (c: RuntimeContext)
        ensures
            c.wf(),
            c.id == id,
            c.generation == 0,
            c.surface.config_spec() == config,
            !c.surface.owed(),
            c.resources@ == Map::<Handle, Entry<NativeResource>>::empty(),
            c.inputs@ == Map::<InputId, u64>::empty(),
            c.storages@ == Map::<usize, StorageDevice>::empty(),
    {
        RuntimeContext {
            id,
            generation: 0,
            surface: Surface::new(config),
            resources: ResourceTable::new(),
            inputs: ActiveSet::new(),
            storages: Storages::new(),
        }
    }

    /// A context under a fresh random identity.
    pub fn with_random_identity(config: SurfaceConfig) -> (c: RuntimeContext)
        ensures
            c.wf(),
            c.generation == 0,
            c.surface.config_spec() == config,
            !c.surface.owed(),
            c.resources@ == Map::<Handle, Entry<NativeResource>>::empty(),
            c.inputs@ == Map::<InputId, u64>::empty(),
            c.storages@ == Map::<usize, StorageDevice>::empty(),
    {
        RuntimeContext::new(random_identity(), config)
    }

    /// Starts a logic tick: the generation advances by exactly one.
    pub fn begin_logic_tick(&mut self) -> (r: Result<u64, HostError>)
        ensures
            old(self).generation < u64::MAX ==> r == Ok::<u64, HostError>(
                (old(self).generation + 1) as u64,
            ) && *final(self) == (RuntimeContext {
                generation: (old(self).generation + 1) as u64,
                ..*old(self)
            }),
            old(self).generation == u64::MAX ==> r == Err::<u64, HostError>(
                HostError::GenerationExhausted,
            ) && *final(self) == *old(self),
    {
        if self.generation == u64::MAX {
            return Err(HostError::GenerationExhausted);
        }
        self.generation = self.generation + 1;
        Ok(self.generation)
    }

    /// A platform input event: a press activates `id` in the current
    /// generation unless it is already held; a release deactivates it.
    pub fn input_event(&mut self, id: InputId, pressed: bool)
        requires
            old(self).wf(),
        ensures
            final(self).wf(),
            final(self).inputs@ == if !pressed {
                old(self).inputs@.remove(id)
            } else if old(self).inputs@.contains_key(id) {
                old(self).inputs@
            } else {
                old(self).inputs@.insert(id, old(self).generation)
            },
            final(self).generation == old(self).generation,
            final(self).resources == old(self).resources,
            final(self).surface == old(self).surface,
            final(self).storages == old(self).storages,
            final(self).id == old(self).id,
    {
        if pressed {
            self.inputs.press(id, self.generation);
        } else {
            self.inputs.release(id);
        }
    }

    /// Whether `id` is held.
    pub fn is_active(&self, id: InputId) -> (r: bool)
        requires
            self.wf(),
        ensures
            r == self.inputs@.contains_key(id),
    {
        self.inputs.is_active(id)
    }

    /// Every held input, once each.
    pub fn active_inputs(&self) -> (r: Vec<InputId>)
        requires
            self.wf(),
        ensures
            forall|k: int| 0 <= k < r@.len() ==> self.inputs@.contains_key(#[trigger] r@[k]),
            forall|j: int, k: int| 0 <= j < r@.len() && 0 <= k < r@.len() && j != k ==> r@[j] != r@[k],
            forall|id: InputId| #[trigger]
                self.inputs@.contains_key(id) ==> exists|k: int| 0 <= k < r@.len() && r@[k] == id,
    {
        self.inputs.active()
    }

    /// Whether `id` became active in the current generation.
    pub fn just_became_active(&self, id: InputId) -> (r: bool)
        requires
            self.wf(),
        ensures
            r == (self.inputs@.contains_key(id) && self.inputs@[id] == self.generation),
    {
        self.inputs.became_active_in(id, self.generation)
    }

    /// The window was resized: the surface takes the new size. Returns the
    /// configuration to apply to the device before the next render.
    pub fn resize(&mut self, width: u32, height: u32) -> (r: SurfaceConfig)
        ensures
            r == (SurfaceConfig { width, height, ..old(self).surface.config_spec() }),
            final(self).surface.config_spec() == r,
            final(self).surface.owed() == old(self).surface.owed(),
            final(self).generation == old(self).generation,
            final(self).resources == old(self).resources,
            final(self).inputs == old(self).inputs,
            final(self).storages == old(self).storages,
            final(self).id == old(self).id,
    {
        self.surface.reconfigure(width, height)
    }

    /// The window's size, as the surface is configured.
    pub fn dimensions(&self) -> (r: (u32, u32))
        ensures
            r == (self.surface.config_spec().width, self.surface.config_spec().height),
    {
        let c = self.surface.config();
        (c.width, c.height)
    }

    /// Registers a native resource under a fresh handle.
    pub fn register(&mut self, native: NativeResource, parent: Option<Handle>) -> (r: Result<
        Handle,
        HostError,
    >)
        requires
            old(self).wf(),
        ensures
            final(self).wf(),
            old(self).resources.evolves_to(&final(self).resources),
            parent is Some && !old(self).resources@.contains_key(parent->Some_0) ==> r == Err::<
                Handle,
                HostError,
            >(HostError::InvalidHandle),
            (parent is None || old(self).resources@.contains_key(parent->Some_0)) ==> (r is Ok
                <==> !old(self).resources.full()),
            (parent is None || old(self).resources@.contains_key(parent->Some_0)) && r is Err
                ==> r->Err_0 == HostError::Exhausted,
            r is Err ==> final(self).resources@ == old(self).resources@,
            r is Ok ==> {
                &&& !old(self).resources@.contains_key(r->Ok_0)
                &&& !old(self).resources.retired(r->Ok_0)
                &&& final(self).resources@ == old(self).resources@.insert(
                    r->Ok_0,
                    (Entry { value: native, parent }),
                )
            },
            final(self).generation == old(self).generation,
            final(self).surface == old(self).surface,
            final(self).inputs == old(self).inputs,
            final(self).storages == old(self).storages,
            final(self).id == old(self).id,
    {
        match self.resources.register(native, parent) {
            Ok(h) => Ok(h),
            Err(e) => Err(from_table_error(e)),
        }
    }

    /// The native resource behind `h`.
    pub fn resolve(&self, h: Handle) -> (r: Result<NativeResource, HostError>)
        ensures
            r is Ok <==> self.resources@.contains_key(h),
            r is Ok ==> r->Ok_0 == self.resources@[h].value,
            r is Err ==> r->Err_0 == HostError::InvalidHandle,
    {
        match self.resources.resolve(h) {
            Ok(n) => Ok(*n),
            Err(_) => Err(HostError::InvalidHandle),
        }
    }

    /// The guest dropped `h`: its entry goes, and the native resource comes
    /// back to the caller, who releases it. A resource with live children is
    /// kept.
    pub fn drop_resource(&mut self, h: Handle) -> (r: Result<NativeResource, HostError>)
        requires
            old(self).wf(),
        ensures
            final(self).wf(),
            old(self).resources.evolves_to(&final(self).resources),
            !old(self).resources@.contains_key(h) ==> r == Err::<NativeResource, HostError>(
                HostError::InvalidHandle,
            ),
            old(self).resources@.contains_key(h) && crate::handle_table::has_child(
                old(self).resources@,
                h,
            ) ==> r == Err::<NativeResource, HostError>(HostError::HasChildren),
            old(self).resources@.contains_key(h) && !crate::handle_table::has_child(
                old(self).resources@,
                h,
            ) ==> r is Ok,
            r is Err ==> final(self).resources@ == old(self).resources@,
            r is Ok ==> {
                &&& r->Ok_0 == old(self).resources@[h].value
                &&& final(self).resources@ == old(self).resources@.remove(h)
                &&& final(self).resources.retired(h)
            },
            final(self).generation == old(self).generation,
            final(self).surface == old(self).surface,
            final(self).inputs == old(self).inputs,
            final(self).storages == old(self).storages,
            final(self).id == old(self).id,
    {
        match self.resources.drop(h) {
            Ok(n) => Ok(n),
            Err(e) => Err(from_table_error(e)),
        }
    }

    /// Creates the bookkeeping for a new buffer of `device`, unmapped.
    pub fn create_buffer(&mut self, device: Handle, id: u64, size: u64, usage: u32) -> (r: Result<
        Handle,
        HostError,
    >)
        requires
            old(self).wf(),
        ensures
            final(self).wf(),
            old(self).resources.evolves_to(&final(self).resources),
            !old(self).resources@.contains_key(device) ==> r == Err::<Handle, HostError>(
                HostError::InvalidHandle,
            ),
            old(self).resources@.contains_key(device) ==> (r is Ok
                <==> !old(self).resources.full()),
            r is Err ==> final(self).resources@ == old(self).resources@,
            r is Ok ==> {
                &&& !old(self).resources@.contains_key(r->Ok_0)
                &&& buffer_at(final(self).resources@, r->Ok_0) == Some(
                    (id, Buffer { usage, map_state: GpuBufferMapState::Unmapped, size }),
                )
                &&& final(self).resources@[r->Ok_0].parent == Some(device)
                &&& final(self).resources@ == old(self).resources@.insert(
                    r->Ok_0,
                    final(self).resources@[r->Ok_0],
                )
            },
            final(self).generation == old(self).generation,
            final(self).surface == old(self).surface,
            final(self).inputs == old(self).inputs,
            final(self).storages == old(self).storages,
            final(self).id == old(self).id,
    {
        let record = Buffer::new(size, usage);
        self.register(NativeResource::Buffer { id, record }, Some(device))
    }

    /// The record of the buffer under `h`: its size, usage and map state.
    pub fn buffer(&self, h: Handle) -> (r: Result<Buffer, HostError>)
        ensures
            match buffer_at(self.resources@, h) {
                Some((_, b)) => r == Ok::<Buffer, HostError>(b),
                None => r == Err::<Buffer, HostError>(kind_error(self.resources@, h)),
            },
    {
        match self.resources.resolve(h) {
            Ok(NativeResource::Buffer { record, .. }) => Ok(*record),
            Ok(_) => Err(HostError::WrongKind),
            Err(_) => Err(HostError::InvalidHandle),
        }
    }

    /// The record of the texture under `h`.
    pub fn texture(&self, h: Handle) -> (r: Result<Texture, HostError>)
        ensures
            match texture_at(self.resources@, h) {
                Some((_, t)) => r == Ok::<Texture, HostError>(t),
                None => r == Err::<Texture, HostError>(kind_error(self.resources@, h)),
            },
    {
        match self.resources.resolve(h) {
            Ok(NativeResource::Texture { record, .. }) => Ok(*record),
            Ok(_) => Err(HostError::WrongKind),
            Err(_) => Err(HostError::InvalidHandle),
        }
    }

    /// The record of the query set under `h`.
    pub fn query_set(&self, h: Handle) -> (r: Result<QuerySet, HostError>)
        ensures
            match query_set_at(self.resources@, h) {
                Some((_, q)) => r == Ok::<QuerySet, HostError>(q),
                None => r == Err::<QuerySet, HostError>(kind_error(self.resources@, h)),
            },
    {
        match self.resources.resolve(h) {
            Ok(NativeResource::QuerySet { record, .. }) => Ok(*record),
            Ok(_) => Err(HostError::WrongKind),
            Err(_) => Err(HostError::InvalidHandle),
        }
    }

    /// The map state of the buffer under `h`.
    pub fn buffer_map_state(&self, h: Handle) -> (r: Result<GpuBufferMapState, HostError>)
        ensures
            match buffer_at(self.resources@, h) {
                Some((_, b)) => r == Ok::<GpuBufferMapState, HostError>(b.map_state),
                None => r == Err::<GpuBufferMapState, HostError>(
                    if self.resources@.contains_key(h) {
                        HostError::WrongKind
                    } else {
                        HostError::InvalidHandle
                    },
                ),
            },
    {
        match self.resources.resolve(h) {
            Ok(NativeResource::Buffer { record, .. }) => Ok(record.map_state),
            Ok(_) => Err(HostError::WrongKind),
            Err(_) => Err(HostError::InvalidHandle),
        }
    }

    /// Applies a map-state operation to the buffer under `h`. A transition
    /// its state does not allow is refused and changes nothing.
    pub fn buffer_map_op(&mut self, h: Handle, op: MapOp) -> (r: Result<(), HostError>)
        requires
            old(self).wf(),
        ensures
            final(self).wf(),
            old(self).resources.evolves_to(&final(self).resources),
            match buffer_at(old(self).resources@, h) {
                None => {
                    &&& r == Err::<(), HostError>(
                        if old(self).resources@.contains_key(h) {
                            HostError::WrongKind
                        } else {
                            HostError::InvalidHandle
                        },
                    )
                    &&& final(self).resources@ == old(self).resources@
                },
                Some((id, b)) => match map_transition(b.map_state, op) {
                    Ok(s) => {
                        &&& r is Ok
                        &&& final(self).resources@ == old(self).resources@.insert(
                            h,
                            (Entry {
                                value: NativeResource::Buffer {
                                    id,
                                    record: Buffer { map_state: s, ..b },
                                },
                                parent: old(self).resources@[h].parent,
                            }),
                        )
                    },
                    Err(e) => {
                        &&& r == Err::<(), HostError>(HostError::BufferMap(e))
                        &&& final(self).resources@ == old(self).resources@
                    },
                },
            },
            final(self).generation == old(self).generation,
            final(self).surface == old(self).surface,
            final(self).inputs == old(self).inputs,
            final(self).storages == old(self).storages,
            final(self).id == old(self).id,
    {
        proof {
            crate::handle_table::lemma_evolves_reflexive(&self.resources);
        }
        let (id, mut b) = match self.resources.resolve(h) {
            Ok(NativeResource::Buffer { id, record }) => (*id, *record),
            Ok(_) => return Err(HostError::WrongKind),
            Err(_) => return Err(HostError::InvalidHandle),
        };
        let step = match op {
            MapOp::Begin => b.begin_map(),
            MapOp::Finish => b.finish_map(),
            MapOp::Unmap => b.unmap(),
        };
        match step {
            Err(e) => Err(HostError::BufferMap(e)),
            Ok(()) => {
                let _ = self.resources.replace(h, NativeResource::Buffer { id, record: b });
                Ok(())
            },
        }
    }

    /// The guest acquired the surface's current texture, registered here
    /// under a fresh handle: the frame now owes a present.
    pub fn acquire_surface_texture(&mut self, texture_id: u64) -> (r: Result<Handle, HostError>)
        requires
            old(self).wf(),
        ensures
            final(self).wf(),
            old(self).resources.evolves_to(&final(self).resources),
            final(self).surface.owed(),
            final(self).surface.config_spec() == old(self).surface.config_spec(),
            r is Ok <==> !old(self).resources.full(),
            r is Err ==> r->Err_0 == HostError::Exhausted && final(self).resources@ == old(
                self,
            ).resources@,
            r is Ok ==> {
                &&& !old(self).resources@.contains_key(r->Ok_0)
                &&& final(self).resources@ == old(self).resources@.insert(
                    r->Ok_0,
                    (Entry {
                        value: NativeResource::Gpu { kind: GpuKind::SurfaceTexture, id: texture_id },
                        parent: None,
                    }),
                )
            },
            final(self).generation == old(self).generation,
            final(self).inputs == old(self).inputs,
            final(self).storages == old(self).storages,
            final(self).id == old(self).id,
    {
        self.surface.mark_present_owed();
        self.register(NativeResource::Gpu { kind: GpuKind::SurfaceTexture, id: texture_id }, None)
    }

    /// A render tick finished: whether the surface must be presented now.
    /// It answers `true` at most once for all the acquisitions of one frame.
    pub fn finish_render(&mut self) -> (r: bool)
        ensures
            r == old(self).surface.owed(),
            !final(self).surface.owed(),
            final(self).surface.config_spec() == old(self).surface.config_spec(),
            final(self).generation == old(self).generation,
            final(self).resources == old(self).resources,
            final(self).inputs == old(self).inputs,
            final(self).storages == old(self).storages,
            final(self).id == old(self).id,
    {
        self.surface.take_present_owed()
    }

    /// Mounts a storage device for the guest.
    pub fn mount(&mut self, device: StorageDevice) -> (r: Result<usize, HostError>)
        requires
            old(self).wf(),
        ensures
            final(self).wf(),
            r is Ok <==> old(self).storages@.len() < crate::storage::MAX_STORAGE_DEVICES,
            r is Err ==> r->Err_0 == HostError::Exhausted && final(self).storages@ == old(
                self,
            ).storages@,
            r is Ok ==> !old(self).storages@.contains_key(r->Ok_0) && final(self).storages@ == old(
                self,
            ).storages@.insert(r->Ok_0, device),
            final(self).generation == old(self).generation,
            final(self).resources == old(self).resources,
            final(self).inputs == old(self).inputs,
            final(self).surface == old(self).surface,
            final(self).id == old(self).id,
    {
        match self.storages.mount(device) {
            Ok(k) => Ok(k),
            Err(e) => Err(from_storage_error(e)),
        }
    }

    /// The root directory that the storage device under `key` confines the
    /// guest to.
    pub fn storage_root(&self, key: usize) -> (r: Result<String, HostError>)
        ensures
            match crate::storage::root_of(self.storages@, key) {
                Ok(root) => r is Ok && r->Ok_0@ == root,
                Err(e) => r == Err::<String, HostError>(storage_error(e)),
            },
    {
        match self.storages.root(key) {
            Ok(root) => Ok(root),
            Err(e) => Err(from_storage_error(e)),
        }
    }

    /// The guest dropped the storage device under `key`.
    pub fn unmount(&mut self, key: usize) -> (r: Result<(), HostError>)
        requires
            old(self).wf(),
        ensures
            final(self).wf(),
            r is Ok <==> old(self).storages@.contains_key(key),
            r is Ok ==> final(self).storages@ == old(self).storages@.remove(key),
            r is Err ==> r->Err_0 == HostError::InvalidHandle && final(self).storages@ == old(
                self,
            ).storages@,
            final(self).generation == old(self).generation,
            final(self).resources == old(self).resources,
            final(self).inputs == old(self).inputs,
            final(self).surface == old(self).surface,
            final(self).id == old(self).id,
    {
        match self.storages.unmount(key) {
            Ok(_) => Ok(()),
            Err(e) => Err(from_storage_error(e)),
        }
    }

    /// Shuts the context down: every resource still registered comes out
    /// once, for the caller to release.
    pub fn into_resources(self) -> (r: Vec<(Handle, NativeResource)>)
        ensures
            forall|k: int|
                0 <= k < r@.len() ==> self.resources@.contains_key(#[trigger] r@[k].0)
                    && self.resources@[r@[k].0].value == r@[k].1,
            forall|j: int, k: int| 0 <= j < r@.len() && 0 <= k < r@.len() && j != k ==> r@[j].0 != r@[k].0,
            forall|h: Handle| #[trigger]
                self.resources@.contains_key(h) ==> exists|k: int| 0 <= k < r@.len() && r@[k].0 == h,
    {
        self.resources.into_entries()
    }
}

} // verus!
