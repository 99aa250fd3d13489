use rune_host::context::{GpuKind, HostError, NativeResource, RuntimeContext};
use rune_host::handle_table::{ResourceTable, TableError};
use rune_host::surface::SurfaceConfig;

fn config() -> SurfaceConfig {
    SurfaceConfig { width: 800, height: 600, format: 0, present_mode: 0, alpha_mode: 0 }
}

#[test]
fn register_then_resolve() {
    let mut t: ResourceTable<u64> = ResourceTable::new();
    let a = t.register(10, None).unwrap();
    let b = t.register(20, None).unwrap();
    assert_ne!(a, b);
    assert_eq!(t.resolve(a), Ok(&10));
    assert_eq!(t.resolve(b), Ok(&20));
    assert!(t.contains(a));
}

#[test]
fn dropped_handle_fails_to_resolve() {
    let mut t: ResourceTable<u64> = ResourceTable::new();
    let a = t.register(10, None).unwrap();
    assert_eq!(t.drop(a), Ok(10));
    assert_eq!(t.resolve(a), Err(TableError::InvalidHandle));
    assert_eq!(t.drop(a), Err(TableError::InvalidHandle));
    assert!(!t.contains(a));
}

#[test]
fn reused_slot_does_not_revive_old_handle() {
    let mut t: ResourceTable<u64> = ResourceTable::new();
    let a = t.register(10, None).unwrap();
    t.drop(a).unwrap();
    let b = t.register(30, None).unwrap();
    assert_eq!(a.index, b.index);
    assert_ne!(a.generation, b.generation);
    assert_eq!(t.resolve(a), Err(TableError::InvalidHandle));
    assert_eq!(t.resolve(b), Ok(&30));
}

#[test]
fn live_handles_never_share_a_slot() {
    let mut t: ResourceTable<u64> = ResourceTable::new();
    let mut live = Vec::new();
    for i in 0..20u64 {
        live.push(t.register(i, None).unwrap());
        if i % 3 == 0 {
            let h = live.remove(0);
            t.drop(h).unwrap();
        }
    }
    for i in 0..live.len() {
        for j in 0..live.len() {
            if i != j {
                assert_ne!(live[i].index, live[j].index);
            }
        }
    }
}

#[test]
fn parent_with_children_cannot_be_dropped() {
    let mut t: ResourceTable<u64> = ResourceTable::new();
    let device = t.register(1, None).unwrap();
    let buffer = t.register(2, Some(device)).unwrap();
    assert_eq!(t.parent(buffer), Ok(Some(device)));
    assert!(t.has_children(device));
    assert_eq!(t.drop(device), Err(TableError::HasChildren));
    assert_eq!(t.drop(buffer), Ok(2));
    assert!(!t.has_children(device));
    assert_eq!(t.drop(device), Ok(1));
}

#[test]
fn register_under_dead_parent_fails() {
    let mut t: ResourceTable<u64> = ResourceTable::new();
    let device = t.register(1, None).unwrap();
    t.drop(device).unwrap();
    assert_eq!(t.register(2, Some(device)), Err(TableError::InvalidHandle));
}

#[test]
fn replace_keeps_handle_and_parent() {
    let mut t: ResourceTable<u64> = ResourceTable::new();
    let p = t.register(1, None).unwrap();
    let c = t.register(2, Some(p)).unwrap();
    assert_eq!(t.replace(c, 5), Ok(2));
    assert_eq!(t.resolve(c), Ok(&5));
    assert_eq!(t.parent(c), Ok(Some(p)));
    t.drop(c).unwrap();
    assert_eq!(t.replace(c, 6), Err(TableError::InvalidHandle));
}

#[test]
fn into_entries_returns_each_live_entry_once() {
    let mut t: ResourceTable<u64> = ResourceTable::new();
    let a = t.register(1, None).unwrap();
    let b = t.register(2, None).unwrap();
    let c = t.register(3, None).unwrap();
    t.drop(b).unwrap();
    let mut entries = t.into_entries();
    entries.sort_by_key(|e| e.1);
    assert_eq!(entries, vec![(a, 1), (c, 3)]);
}

#[test]
fn each_native_resource_is_torn_down_once() {
    let mut ctx = RuntimeContext::new(7, config());
    let mut handles = Vec::new();
    for id in 0..5u64 {
        let native = NativeResource::Gpu { kind: GpuKind::Sampler, id };
        handles.push(ctx.register(native, None).unwrap());
    }
    let mut torn_down = vec![0u32; 5];
    for h in &handles {
        if let Ok(NativeResource::Gpu { id, .. }) = ctx.drop_resource(*h) {
            torn_down[id as usize] += 1;
        }
    }
    for h in &handles {
        assert_eq!(ctx.drop_resource(*h), Err(HostError::InvalidHandle));
    }
    assert_eq!(torn_down, vec![1, 1, 1, 1, 1]);
}

#[test]
fn shutdown_hands_back_remaining_resources() {
    let mut ctx = RuntimeContext::new(7, config());
    let a = ctx.register(NativeResource::Audio { id: 3 }, None).unwrap();
    let b = ctx.register(NativeResource::Network { id: 4 }, None).unwrap();
    ctx.drop_resource(a).unwrap();
    let rest = ctx.into_resources();
    assert_eq!(rest, vec![(b, NativeResource::Network { id: 4 })]);
}
