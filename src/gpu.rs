//! Bookkeeping for graphics resources whose guest-visible metadata the host
//! keeps itself: declared usage, logical size, and a buffer's map state.
use vstd::prelude::*;

verus! {

/// A buffer goes `Unmapped -> Pending -> Mapped -> Unmapped`.
#[derive(Clone, Copy, Debug, PartialEq, Eq, Hash, Structural)]
pub enum GpuBufferMapState {
    Unmapped,
    Pending,
    Mapped,
}

/// A map-state transition the buffer's current state does not allow.
#[derive(Clone, Copy, Debug, PartialEq, Eq, Hash, Structural)]
pub enum MapError {
    /// A map was requested while an earlier one is still pending.
    AlreadyPending,
    /// A map was requested while the buffer is mapped.
    AlreadyMapped,
    /// A map completed on a buffer that had no map pending.
    NotPending,
    /// An unmap was requested on a buffer that is not mapped.
    NotMapped,
}

#[derive(Clone, Copy, Debug, PartialEq, Eq, Structural)]
pub struct Buffer {
    pub usage: u32,
    pub map_state: GpuBufferMapState,
    pub size: u64,
}

#[derive(Clone, Copy, Debug, PartialEq, Eq, Hash, Structural)]
pub enum QueryType {
    Occlusion,
    Timestamp,
}

#[derive(Clone, Copy, Debug, PartialEq, Eq, Structural)]
pub struct QuerySet {
    pub count: u32,
    pub type_: QueryType,
}

#[derive(Clone, Copy, Debug, PartialEq, Eq, Hash, Structural)]
pub enum TextureDimension {
    D1,
    D2,
    D3,
}

#[derive(Clone, Copy, Debug, PartialEq, Eq, Structural)]
pub struct Texture {
    pub height: u32,
    pub width: u32,
    pub mip_level_count: u32,
    pub sample_count: u32,
    pub dimension: TextureDimension,
    /// The driver's texture format, by its index in the format list.
    pub format: u32,
    pub usage: u32,
}

/// A driver call's pair of a new object's id and its error, as a result: the
/// id is only good when no error came with it.
pub fn wgpu_id<I, E>(pair: (I, Option<E>)) -> (r: Result<I, E>)
    ensures
        r == match pair.1 {
            Some(e) => Err::<I, E>(e),
            None => Ok(pair.0),
        },
{
    let (id, error) = pair;
    match error {
        Some(e) => Err(e),
        None => Ok(id),
    }
}

impl Buffer {
    /// A freshly created buffer, not mapped.
    pub fn new(size: u64, usage: u32) -> (b: Buffer)
        ensures
            b == (Buffer { usage, map_state: GpuBufferMapState::Unmapped, size }),
    {
        Buffer { usage, map_state: GpuBufferMapState::Unmapped, size }
    }

    /// Starts a map: only an unmapped buffer may be mapped. On refusal the
    /// buffer is left as it was.
    pub fn begin_map(&mut self) -> (r: Result<(), MapError>)
        ensures
            old(self).map_state == GpuBufferMapState::Unmapped ==> r is Ok && *final(self) == (
            Buffer { map_state: GpuBufferMapState::Pending, ..*old(self) }),
            old(self).map_state == GpuBufferMapState::Pending ==> r == Err::<(), MapError>(
                MapError::AlreadyPending,
            ) && *final(self) == *old(self),
            old(self).map_state == GpuBufferMapState::Mapped ==> r == Err::<(), MapError>(
                MapError::AlreadyMapped,
            ) && *final(self) == *old(self),
    {
        match self.map_state {
            GpuBufferMapState::Unmapped => {
                self.map_state = GpuBufferMapState::Pending;
                Ok(())
            },
            GpuBufferMapState::Pending => Err(MapError::AlreadyPending),
            GpuBufferMapState::Mapped => Err(MapError::AlreadyMapped),
        }
    }

    /// The pending map completed: the buffer is mapped.
    pub fn finish_map(&mut self) -> (r: Result<(), MapError>)
        ensures
            old(self).map_state == GpuBufferMapState::Pending ==> r is Ok && *final(self) == (
            Buffer { map_state: GpuBufferMapState::Mapped, ..*old(self) }),
            old(self).map_state != GpuBufferMapState::Pending ==> r == Err::<(), MapError>(
                MapError::NotPending,
            ) && *final(self) == *old(self),
    {
        match self.map_state {
            GpuBufferMapState::Pending => {
                self.map_state = GpuBufferMapState::Mapped;
                Ok(())
            },
            _ => Err(MapError::NotPending),
        }
    }

    /// Unmaps a mapped buffer or abandons a pending map; on an unmapped buffer
    /// this is a refused no-op.
    pub fn unmap(&mut self) -> (r: Result<(), MapError>)
        ensures
            old(self).map_state != GpuBufferMapState::Unmapped ==> r is Ok && *final(self) == (
            Buffer { map_state: GpuBufferMapState::Unmapped, ..*old(self) }),
            old(self).map_state == GpuBufferMapState::Unmapped ==> r == Err::<(), MapError>(
                MapError::NotMapped,
            ) && *final(self) == *old(self),
    {
        match self.map_state {
            GpuBufferMapState::Unmapped => Err(MapError::NotMapped),
            _ => {
                self.map_state = GpuBufferMapState::Unmapped;
                Ok(())
            },
        }
    }
}

} // verus!
