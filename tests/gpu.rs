use rune_host::context::{HostError, MapOp, NativeResource, RuntimeContext, GpuKind};
use rune_host::gpu::{Buffer, GpuBufferMapState, MapError, QuerySet, QueryType, Texture, TextureDimension};
use rune_host::surface::{SurfaceCapabilities, SurfaceConfig};

fn context() -> RuntimeContext {
    let config = SurfaceConfig { width: 8, height: 8, format: 2, present_mode: 1, alpha_mode: 0 };
    RuntimeContext::new(3, config)
}

#[test]
fn buffer_map_cycle() {
    let mut b = Buffer::new(64, 9);
    assert_eq!(b.map_state, GpuBufferMapState::Unmapped);
    assert_eq!(b.begin_map(), Ok(()));
    assert_eq!(b.map_state, GpuBufferMapState::Pending);
    assert_eq!(b.finish_map(), Ok(()));
    assert_eq!(b.map_state, GpuBufferMapState::Mapped);
    assert_eq!(b.unmap(), Ok(()));
    assert_eq!(b.map_state, GpuBufferMapState::Unmapped);
    assert_eq!((b.size, b.usage), (64, 9));
}

#[test]
fn mapping_pending_or_mapped_buffer_fails() {
    let mut b = Buffer::new(4, 0);
    b.begin_map().unwrap();
    assert_eq!(b.begin_map(), Err(MapError::AlreadyPending));
    assert_eq!(b.map_state, GpuBufferMapState::Pending);
    b.finish_map().unwrap();
    assert_eq!(b.begin_map(), Err(MapError::AlreadyMapped));
    assert_eq!(b.map_state, GpuBufferMapState::Mapped);
    assert_eq!(b.finish_map(), Err(MapError::NotPending));
}

#[test]
fn unmap_of_unmapped_buffer_is_refused() {
    let mut b = Buffer::new(4, 0);
    assert_eq!(b.unmap(), Err(MapError::NotMapped));
    assert_eq!(b.map_state, GpuBufferMapState::Unmapped);
}

#[test]
fn buffer_through_handles() {
    let mut ctx = context();
    let device = ctx.register(NativeResource::Gpu { kind: GpuKind::Device, id: 1 }, None).unwrap();
    let buffer = ctx.create_buffer(device, 77, 256, 3).unwrap();
    assert_eq!(ctx.buffer_map_state(buffer), Ok(GpuBufferMapState::Unmapped));
    assert_eq!(ctx.buffer_map_op(buffer, MapOp::Begin), Ok(()));
    assert_eq!(ctx.buffer_map_op(buffer, MapOp::Begin), Err(HostError::BufferMap(MapError::AlreadyPending)));
    assert_eq!(ctx.buffer_map_state(buffer), Ok(GpuBufferMapState::Pending));
    assert_eq!(ctx.buffer_map_op(buffer, MapOp::Finish), Ok(()));
    assert_eq!(ctx.buffer_map_state(buffer), Ok(GpuBufferMapState::Mapped));
    assert_eq!(ctx.buffer_map_op(buffer, MapOp::Unmap), Ok(()));
    assert_eq!(ctx.buffer_map_op(buffer, MapOp::Unmap), Err(HostError::BufferMap(MapError::NotMapped)));
    assert_eq!(ctx.buffer_map_state(device), Err(HostError::WrongKind));
    assert_eq!(ctx.drop_resource(device), Err(HostError::HasChildren));
    match ctx.drop_resource(buffer) {
        Ok(NativeResource::Buffer { id, record }) => {
            assert_eq!(id, 77);
            assert_eq!(record.size, 256);
        }
        other => panic!("unexpected {:?}", other),
    }
    assert_eq!(ctx.buffer_map_state(buffer), Err(HostError::InvalidHandle));
    assert_eq!(ctx.buffer_map_op(buffer, MapOp::Begin), Err(HostError::InvalidHandle));
    assert!(ctx.drop_resource(device).is_ok());
}

#[test]
fn buffer_needs_live_device() {
    let mut ctx = context();
    let device = ctx.register(NativeResource::Gpu { kind: GpuKind::Device, id: 1 }, None).unwrap();
    ctx.drop_resource(device).unwrap();
    assert_eq!(ctx.create_buffer(device, 1, 1, 1), Err(HostError::InvalidHandle));
}

#[test]
fn one_present_per_render_tick() {
    let mut ctx = context();
    assert!(!ctx.finish_render());
    ctx.acquire_surface_texture(5).unwrap();
    ctx.acquire_surface_texture(6).unwrap();
    ctx.surface.mark_present_owed();
    assert!(ctx.finish_render());
    assert!(!ctx.finish_render());
}

#[test]
fn generation_cannot_overflow() {
    let mut ctx = context();
    ctx.generation = u64::MAX;
    assert_eq!(ctx.begin_logic_tick(), Err(HostError::GenerationExhausted));
    assert_eq!(ctx.generation, u64::MAX);
}

#[test]
fn wgpu_id_pairs() {
    let ok: Result<u32, &str> = rune_host::gpu::wgpu_id((5, None));
    assert_eq!(ok, Ok(5));
    let err: Result<u32, &str> = rune_host::gpu::wgpu_id((5, Some("lost")));
    assert_eq!(err, Err("lost"));
}

#[test]
fn surface_config_takes_preferred_capabilities() {
    let caps = SurfaceCapabilities { formats: vec![7, 3], present_modes: vec![2, 0], alpha_modes: vec![1] };
    let c = SurfaceConfig::from_capabilities(&caps, 1280, 720).unwrap();
    assert_eq!(c, SurfaceConfig { width: 1280, height: 720, format: 7, present_mode: 2, alpha_mode: 1 });
    let none = SurfaceCapabilities { formats: vec![7], present_modes: vec![], alpha_modes: vec![1] };
    assert_eq!(SurfaceConfig::from_capabilities(&none, 1, 1), None);
}

#[test]
fn resize_keeps_format_and_is_idempotent() {
    let mut ctx = context();
    let once = ctx.resize(100, 50);
    let twice = ctx.resize(100, 50);
    assert_eq!(once, twice);
    assert_eq!(once, SurfaceConfig { width: 100, height: 50, format: 2, present_mode: 1, alpha_mode: 0 });
}

#[test]
fn records_behind_handles() {
    let mut ctx = context();
    let device = ctx.register(NativeResource::Gpu { kind: GpuKind::Device, id: 1 }, None).unwrap();
    let texture = Texture {
        height: 4,
        width: 8,
        mip_level_count: 1,
        sample_count: 1,
        dimension: TextureDimension::D2,
        format: 3,
        usage: 16,
    };
    let t = ctx.register(NativeResource::Texture { id: 5, record: texture }, Some(device)).unwrap();
    let query = QuerySet { count: 2, type_: QueryType::Timestamp };
    let q = ctx.register(NativeResource::QuerySet { id: 6, record: query }, Some(device)).unwrap();
    let b = ctx.create_buffer(device, 7, 32, 1).unwrap();
    assert_eq!(ctx.texture(t), Ok(texture));
    assert_eq!(ctx.query_set(q), Ok(query));
    assert_eq!(ctx.buffer(b).map(|r| (r.size, r.usage)), Ok((32, 1)));
    assert_eq!(ctx.texture(q), Err(HostError::WrongKind));
    assert_eq!(ctx.query_set(b), Err(HostError::WrongKind));
    assert_eq!(ctx.buffer(t), Err(HostError::WrongKind));
    ctx.drop_resource(t).unwrap();
    assert_eq!(ctx.texture(t), Err(HostError::InvalidHandle));
    assert_eq!(ctx.resolve(q), Ok(NativeResource::QuerySet { id: 6, record: query }));
}
