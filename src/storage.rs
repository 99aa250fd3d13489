//! Mounted storage devices, kept in a slab keyed by the device's handle.
//!
//! A local device confines the guest beneath one root directory. Cloud storage
//! is declared but not offered: every operation on it fails with
//! `Unsupported`.
use slab::Slab;
use vstd::prelude::*;

verus! {

/// Most storage devices mounted at once.
pub const MAX_STORAGE_DEVICES: usize = 65_536;

pub enum StorageDevice {
    Local { root: String },
    Cloud,
}

#[derive(Clone, Copy, Debug, PartialEq, Eq, Hash, Structural)]
pub enum StorageError {
    /// No device is mounted under the key.
    InvalidHandle,
    /// The device kind is declared but not implemented.
    Unsupported,
    /// No more devices can be mounted.
    Exhausted,
}

#[verifier::external_type_specification]
#[verifier::external_body]
#[verifier::reject_recursive_types(T)]
pub struct ExSlab<T>(Slab<T>);

/// The devices a slab holds, by key.
pub uninterp spec fn slab_devices(s: Slab<StorageDevice>) -> Map<usize, StorageDevice>;

/// Relies on `slab::Slab::new`: a new slab holds no value.
#[verifier::external_body]
fn slab_new() -> (r: Slab<StorageDevice>)
    ensures
        slab_devices(r).dom() =~= Set::empty(),
{
    Slab::new()
}

/// Relies on `slab::Slab::len`: the number of values stored.
#[verifier::external_body]
fn slab_len(s: &Slab<StorageDevice>) -> (r: usize)
    ensures
        r == slab_devices(*s).len(),
{
    s.len()
}

/// Relies on `slab::Slab::insert`: the value is stored under a key that held
/// no value, and every other key keeps its value. It panics only when the
/// slab's storage outgrows `isize::MAX` bytes, which the bound on the number
/// of values rules out.
#[verifier::external_body]
fn slab_insert(s: &mut Slab<StorageDevice>, v: StorageDevice) -> (r: usize)
    requires
        slab_devices(*old(s)).len() < MAX_STORAGE_DEVICES,
    ensures
        !slab_devices(*old(s)).contains_key(r),
        slab_devices(*final(s)) == slab_devices(*old(s)).insert(r, v),
{
    s.insert(v)
}

/// Relies on `slab::Slab::get`: the value stored under the key, if any.
#[verifier::external_body]
fn slab_get(s: &Slab<StorageDevice>, k: usize) -> (r: Option<&StorageDevice>)
    ensures
        r is Some <==> slab_devices(*s).contains_key(k),
        r is Some ==> *r->Some_0 == slab_devices(*s)[k],
{
    s.get(k)
}

/// Relies on `slab::Slab::try_remove`: takes the value stored under the key
/// out, if any; every other key keeps its value.
#[verifier::external_body]
fn slab_try_remove(s: &mut Slab<StorageDevice>, k: usize) -> (r: Option<StorageDevice>)
    ensures
        r is Some <==> slab_devices(*old(s)).contains_key(k),
        r is Some ==> r->Some_0 == slab_devices(*old(s))[k] && slab_devices(*final(s))
            == slab_devices(*old(s)).remove(k),
        r is None ==> slab_devices(*final(s)) == slab_devices(*old(s)),
{
    s.try_remove(k)
}

/// The mounted storage devices.
pub struct Storages {
    slab: Slab<StorageDevice>,
}

/// The root a device confines the guest to, or why it has none.
pub open spec fn root_of(m: Map<usize, StorageDevice>, key: usize) -> Result<Seq<char>, StorageError> {
    if !m.contains_key(key) {
        Err(StorageError::InvalidHandle)
    } else {
        match m[key] {
            StorageDevice::Local { root } => Ok(root@),
            StorageDevice::Cloud => Err(StorageError::Unsupported),
        }
    }
}

impl Storages {
    /// The mounted devices, by key.
    pub closed spec fn view(&self) -> Map<usize, StorageDevice> {
        slab_devices(self.slab)
    }

    pub closed spec fn wf(&self) -> bool {
        self@.dom().finite()
    }

    pub fn new() -> (s: Storages)
        ensures
            s.wf(),
            s@ == Map::<usize, StorageDevice>::empty(),
    {
        Storages { slab: slab_new() }
    }

    /// Mounts `device` under a key no mounted device holds.
    pub fn mount(&mut self, device: StorageDevice) -> (r: Result<usize, StorageError>)
        requires
            old(self).wf(),
        ensures
            final(self).wf(),
            r is Ok <==> old(self)@.len() < MAX_STORAGE_DEVICES,
            r is Err ==> r->Err_0 == StorageError::Exhausted && final(self)@ == old(self)@,
            r is Ok ==> !old(self)@.contains_key(r->Ok_0) && final(self)@ == old(self)@.insert(
                r->Ok_0,
                device,
            ),
    {
        if slab_len(&self.slab) >= MAX_STORAGE_DEVICES {
            return Err(StorageError::Exhausted);
        }
        let k = slab_insert(&mut self.slab, device);
        Ok(k)
    }

    /// The root directory of the device under `key`.
    pub fn root(&self, key: usize) -> (r: Result<String, StorageError>)
        ensures
            match root_of(self@, key) {
                Ok(root) => r is Ok && r->Ok_0@ == root,
                Err(e) => r == Err::<String, StorageError>(e),
            },
    {
        match slab_get(&self.slab, key) {
            None => Err(StorageError::InvalidHandle),
            Some(StorageDevice::Local { root }) => Ok(root.clone()),
            Some(StorageDevice::Cloud) => Err(StorageError::Unsupported),
        }
    }

    /// Unmounts the device under `key` and hands it back.
    pub fn unmount(&mut self, key: usize) -> (r: Result<StorageDevice, StorageError>)
        requires
            old(self).wf(),
        ensures
            final(self).wf(),
            r is Ok <==> old(self)@.contains_key(key),
            r is Ok ==> r->Ok_0 == old(self)@[key] && final(self)@ == old(self)@.remove(key),
            r is Err ==> r->Err_0 == StorageError::InvalidHandle && final(self)@ == old(self)@,
    {
        match slab_try_remove(&mut self.slab, key) {
            Some(d) => Ok(d),
            None => Err(StorageError::InvalidHandle),
        }
    }
}

} // verus!
