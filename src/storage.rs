use vstd::prelude::*;
use cid::Cid;
use fvm_ipld_blockstore::MemoryBlockstore;
use std::rc::Rc;
use fvm_ipld_hamt::{BytesKey, Hamt};
use crate::address::{eth_address_of, subaddress_to_eth, EthAddress, NativeAddress, EAM_ACTOR_ID};
use crate::memory::StatusCode;
use crate::u256::U256;

verus! {

/// Bit width of the storage trie's nodes.
pub const STORAGE_BIT_WIDTH: u32 = 5;

#[verifier::external_type_specification]
#[verifier::external_body]
pub struct ExHamtError(fvm_ipld_hamt::Error);

#[verifier::external_type_specification]
#[verifier::external_body]
pub struct ExMemoryBlockstore(MemoryBlockstore);

#[verifier::external_type_specification]
#[verifier::external_body]
pub struct ExCid<const S: usize>(cid::CidGeneric<S>);

/// A persistent hash trie from 32-byte keys to 32-byte values, kept in a
/// shared block store.
#[verifier::external_body]
pub struct StorageTrie {
    inner: Hamt<Rc<MemoryBlockstore>, BytesKey, BytesKey>,
}

/// What a storage trie holds.
pub uninterp spec fn trie_entries(t: StorageTrie) -> Map<Seq<u8>, Seq<u8>>;

impl StorageTrie {
    /// Relies on `Hamt::new_with_bit_width`: a new trie holds nothing.
    #[verifier::external_body]
    fn empty(store: &Rc<MemoryBlockstore>, bit_width: u32) -> (r: StorageTrie)
        ensures
            trie_entries(r).dom() == Set::<Seq<u8>>::empty(),
    {
        StorageTrie { inner: Hamt::new_with_bit_width(Rc::clone(store), bit_width) }
    }

    /// Relies on `Hamt::load_with_bit_width`: the trie whose root `store`
    /// holds under `root`; it fails where the store lacks that root.
    #[verifier::external_body]
    fn load_root(root: &Cid, store: &Rc<MemoryBlockstore>, bit_width: u32) -> (r: Result<
        StorageTrie,
        fvm_ipld_hamt::Error,
    >) {
        Hamt::load_with_bit_width(root, Rc::clone(store), bit_width).map(|inner| StorageTrie { inner })
    }

    /// An empty trie kept in `store`.
    pub fn new(store: &Rc<MemoryBlockstore>) -> (r: StorageTrie)
        ensures
            trie_entries(r).dom() == Set::<Seq<u8>>::empty(),
    {
        StorageTrie::empty(store, STORAGE_BIT_WIDTH)
    }

    /// The trie that `store` holds under the root `root`.
    pub fn load(root: &Cid, store: &Rc<MemoryBlockstore>) -> (r: Result<StorageTrie, StatusCode>)
        ensures
            r matches Err(e) ==> e == StatusCode::InternalError,
    {
        match StorageTrie::load_root(root, store, STORAGE_BIT_WIDTH) {
            Ok(t) => Ok(t),
            Err(_) => Err(StatusCode::InternalError),
        }
    }

    /// Relies on `Hamt::get`: the value held under `key`, if any.
    #[verifier::external_body]
    fn get(&self, key: &Vec<u8>) -> (r: Result<Option<Vec<u8>>, fvm_ipld_hamt::Error>)
        ensures
            match r {
                Ok(Some(v)) => trie_entries(*self).contains_key(key@) && trie_entries(*self)[key@]
                    == v@,
                Ok(None) => !trie_entries(*self).contains_key(key@),
                Err(_) => true,
            },
    {
        self.inner.get(key.as_slice()).map(|v| v.map(|b| b.0.clone()))
    }

    /// Relies on `Hamt::set`: afterwards `key` holds `value`, the rest unchanged.
    #[verifier::external_body]
    fn set(&mut self, key: Vec<u8>, value: Vec<u8>) -> (r: Result<(), fvm_ipld_hamt::Error>)
        ensures
            r.is_ok() ==> trie_entries(*final(self)) == trie_entries(*old(self)).insert(
                key@,
                value@,
            ),
    {
        self.inner.set(BytesKey(key), BytesKey(value)).map(|_| ())
    }

    /// Relies on `Hamt::delete`: afterwards `key` holds nothing, the rest unchanged.
    #[verifier::external_body]
    fn delete(&mut self, key: &Vec<u8>) -> (r: Result<(), fvm_ipld_hamt::Error>)
        ensures
            r.is_ok() ==> trie_entries(*final(self)) == trie_entries(*old(self)).remove(key@),
    {
        self.inner.delete(key.as_slice()).map(|_| ())
    }

    /// Relies on `Hamt::flush`: writes the trie to its store and returns its
    /// root's content identifier. It only replaces nodes by links to nodes
    /// it stored, so what the trie holds is unchanged, whatever it returns.
    #[verifier::external_body]
    fn flush(&mut self) -> (r: Result<Cid, fvm_ipld_hamt::Error>)
        ensures
            trie_entries(*final(self)) == trie_entries(*old(self)),
    {
        self.inner.flush()
    }
}

/// How one storage write changed its key.
#[derive(Clone, Copy, Debug, PartialEq, Eq, Structural)]
pub enum StorageStatus {
    /// The value of a storage item has been left unchanged: 0 -> 0 and X -> X.
    Unchanged,
    /// The value of a storage item has been modified: X -> Y.
    Modified,
    /// A storage item has been modified after being modified before: X -> Y -> Z.
    ModifiedAgain,
    /// A new storage item has been added: 0 -> X.
    Added,
    /// A storage item has been deleted: X -> 0.
    Deleted,
}

/// The bytes stored under `key`, if any.
pub open spec fn stored(m: Map<Seq<u8>, Seq<u8>>, key: U256) -> Option<Seq<u8>> {
    if m.contains_key(key.bytes_spec()) {
        Some(m[key.bytes_spec()])
    } else {
        None
    }
}

/// The classification of a write of `new` over `prev`.
pub open spec fn storage_status(prev: Option<Seq<u8>>, new: Option<Seq<u8>>) -> StorageStatus {
    match new {
        None => StorageStatus::Deleted,
        Some(n) => match prev {
            None => StorageStatus::Added,
            Some(p) => if p == n {
                StorageStatus::Unchanged
            } else {
                StorageStatus::Modified
            },
        },
    }
}

/// The storage map after writing `value` under `key`; `None` deletes.
pub open spec fn written(m: Map<Seq<u8>, Seq<u8>>, key: U256, value: Option<U256>) -> Map<
    Seq<u8>,
    Seq<u8>,
> {
    match value {
        None => m.remove(key.bytes_spec()),
        Some(v) => m.insert(key.bytes_spec(), v.bytes_spec()),
    }
}

/// The handle through which a contract's instructions reach its storage,
/// with the call frame's read-only flag.
pub struct System {
    pub storage: StorageTrie,
    /// Set under a static call: no state may change.
    pub readonly: bool,
}

fn bytes_equal(a: &Vec<u8>, b: &Vec<u8>) -> (r: bool)
    ensures
        r == (a@ == b@),
{
    if a.len() != b.len() {
        return false;
    }
    let mut i: usize = 0;
    while i < a.len()
        invariant
            i <= a@.len(),
            a@.len() == b@.len(),
            forall|j: int| 0 <= j < i ==> a@[j] == b@[j],
        decreases a@.len() - i,
    {
        if a[i] != b[i] {
            return false;
        }
        i = i + 1;
    }
    assert(a@ =~= b@);
    true
}

impl System {
    /// Resolves a native address to its EVM form. `resolved` is the actor that
    /// the host resolves `addr` to, and `registered` that actor's own registered
    /// address, where the host knows them.
    pub fn resolve_ethereum_address(
        &self,
        addr: &NativeAddress,
        resolved: Option<u64>,
        registered: &Option<NativeAddress>,
    ) -> (r: Result<EthAddress, StatusCode>)
        ensures
            match (r, eth_address_of(*addr, resolved, *registered)) {
                (Ok(a), Ok(b)) => a.wf() && a.bytes@ == b,
                (Err(e), Err(f)) => e == f,
                _ => false,
            },
    {
        if let NativeAddress::Delegated { namespace, subaddress } = addr {
            if *namespace == EAM_ACTOR_ID {
                return subaddress_to_eth(subaddress);
            }
        }
        match resolved {
            None => Err(StatusCode::BadAddress),
            Some(id) => {
                if let Some(NativeAddress::Delegated { namespace, subaddress }) = registered {
                    if *namespace == EAM_ACTOR_ID {
                        return subaddress_to_eth(subaddress);
                    }
                }
                Ok(EthAddress::from_id(id))
            },
        }
    }

    /// What the contract's storage holds.
    pub open spec fn entries(&self) -> Map<Seq<u8>, Seq<u8>> {
        trie_entries(self.storage)
    }

    /// A system over the contract storage `storage`.
    pub fn new(storage: StorageTrie, readonly: bool) -> (r: System)
        ensures
            r.entries() == trie_entries(storage),
            r.readonly == readonly,
    {
        System { storage, readonly }
    }

    /// Writes pending changes to the store and returns the storage root's
    /// content identifier.
    pub fn flush_state(&mut self) -> (r: Result<Cid, StatusCode>)
        ensures
            final(self).readonly == old(self).readonly,
            final(self).entries() == old(self).entries(),
            r.is_err() ==> r == Err::<Cid, StatusCode>(StatusCode::InternalError),
    {
        match self.storage.flush() {
            Ok(c) => Ok(c),
            Err(_) => Err(StatusCode::InternalError),
        }
    }

    /// The value stored under `key`; absence stands for zero.
    pub fn get_storage(&self, key: U256) -> (r: Result<Option<U256>, StatusCode>)
        ensures
            match r {
                Ok(None) => stored(self.entries(), key) == None::<Seq<u8>>,
                Ok(Some(v)) => stored(self.entries(), key) is Some,
                Err(e) => e == StatusCode::InternalError,
            },
            r matches Ok(Some(v)) ==> v == U256::from_bytes_spec(
                stored(self.entries(), key).unwrap(),
            ),
            stored(self.entries(), key) matches Some(b) && b.len() != 32 ==> r.is_err(),
    {
        let kb = key.to_big_endian();
        match self.storage.get(&kb) {
            Err(_) => Err(StatusCode::InternalError),
            Ok(None) => Ok(None),
            Ok(Some(b)) => {
                if b.len() == 32 {
                    Ok(Some(U256::from_big_endian(&b)))
                } else {
                    Err(StatusCode::InternalError)
                }
            },
        }
    }

    /// Writes `value` under `key`, deleting the key for `None`, and classifies
    /// the change.
    pub fn set_storage(&mut self, key: U256, value: Option<U256>) -> (r: Result<
        StorageStatus,
        StatusCode,
    >)
        ensures
            final(self).readonly == old(self).readonly,
            match r {
                Ok(status) => {
                    &&& final(self).entries() == written(old(self).entries(), key, value)
                    &&& status == storage_status(
                        stored(old(self).entries(), key),
                        match value {
                            Some(v) => Some(v.bytes_spec()),
                            None => None,
                        },
                    )
                },
                Err(e) => e == StatusCode::InternalError,
            },
    {
        let kb = key.to_big_endian();
        let prev = match self.storage.get(&kb) {
            Ok(p) => p,
            Err(_) => return Err(StatusCode::InternalError),
        };
        match value {
            None => {
                match self.storage.delete(&kb) {
                    Ok(()) => Ok(StorageStatus::Deleted),
                    Err(_) => Err(StatusCode::InternalError),
                }
            },
            Some(v) => {
                let vb = v.to_big_endian();
                let status = match &prev {
                    None => StorageStatus::Added,
                    Some(p) => if bytes_equal(p, &vb) {
                        StorageStatus::Unchanged
                    } else {
                        StorageStatus::Modified
                    },
                };
                match self.storage.set(kb, vb) {
                    Ok(()) => Ok(status),
                    Err(_) => Err(StatusCode::InternalError),
                }
            },
        }
    }
}

/// Writing a value under a key that holds nothing adds it; writing the same
/// value again leaves it unchanged; writing nothing afterwards deletes it.
pub proof fn lemma_add_repeat_delete(m: Map<Seq<u8>, Seq<u8>>, key: U256, v: U256)
    requires
        stored(m, key) == None::<Seq<u8>>,
    ensures
        storage_status(stored(m, key), Some(v.bytes_spec())) == StorageStatus::Added,
        storage_status(stored(written(m, key, Some(v)), key), Some(v.bytes_spec()))
            == StorageStatus::Unchanged,
        storage_status(
            stored(written(written(m, key, Some(v)), key, Some(v)), key),
            None,
        ) == StorageStatus::Deleted,
        stored(
            written(written(written(m, key, Some(v)), key, Some(v)), key, None),
            key,
        ) == None::<Seq<u8>>,
{
    let m1 = written(m, key, Some(v));
    assert(m1.contains_key(key.bytes_spec()));
    let m3 = written(written(m1, key, Some(v)), key, None);
    assert(!m3.contains_key(key.bytes_spec()));
}

/// After a word is written under a key, the key holds its 32 bytes, and
/// reading them back gives that word.
pub proof fn lemma_read_after_write(m: Map<Seq<u8>, Seq<u8>>, key: U256, v: U256)
    ensures
        stored(written(m, key, Some(v)), key) == Some(v.bytes_spec()),
        v.bytes_spec().len() == 32,
        U256::from_bytes_spec(stored(written(m, key, Some(v)), key).unwrap()) == v,
{
    v.lemma_bytes_round_trip();
}

/// After a key is deleted, it holds nothing.
pub proof fn lemma_read_after_delete(m: Map<Seq<u8>, Seq<u8>>, key: U256)
    ensures
        stored(written(m, key, None), key) == None::<Seq<u8>>,
{
}

} // verus!
