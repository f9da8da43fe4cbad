use vstd::prelude::*;
use crate::memory::StatusCode;
use crate::u256::U256;

verus! {

/// The actor whose namespace holds the addresses of EVM contracts.
pub const EAM_ACTOR_ID: u64 = 10;

/// A native actor address, as far as the dispatcher reads it.
#[derive(Clone, Debug)]
pub enum NativeAddress {
    /// An actor identifier.
    Id(u64),
    /// A namespace-tagged address.
    Delegated { namespace: u64, subaddress: Vec<u8> },
    /// Any other address kind, by its raw bytes.
    Other(Vec<u8>),
}

/// A 20-byte EVM address.
#[derive(Clone, Debug)]
pub struct EthAddress {
    pub bytes: Vec<u8>,
}

/// Big-endian bytes of a 64-bit number.
pub open spec fn u64_bytes(v: u64) -> Seq<u8> {
    Seq::new(8, |i: int| ((v >> (8 * (7 - i)) as u64) & 0xff) as u8)
}

/// The address that stands for an actor with no EVM address of its own:
/// `0xff`, eleven zero bytes, then the identifier.
pub open spec fn id_address_bytes(id: u64) -> Seq<u8> {
    seq![0xffu8] + Seq::new(11, |i: int| 0u8) + u64_bytes(id)
}

/// The EVM address of a native one: its subaddress where it lies in the EVM
/// namespace, else that of the actor it resolves to (`resolved`), whose own
/// registered address is `registered`.
pub open spec fn eth_address_of(
    addr: NativeAddress,
    resolved: Option<u64>,
    registered: Option<NativeAddress>,
) -> Result<Seq<u8>, StatusCode> {
    match addr {
        NativeAddress::Delegated { namespace, subaddress } if namespace == EAM_ACTOR_ID => {
            if subaddress@.len() == 20 {
                Ok(subaddress@)
            } else {
                Err(StatusCode::BadAddress)
            }
        },
        _ => match resolved {
            None => Err(StatusCode::BadAddress),
            Some(id) => match registered {
                Some(NativeAddress::Delegated { namespace, subaddress }) if namespace
                    == EAM_ACTOR_ID => {
                    if subaddress@.len() == 20 {
                        Ok(subaddress@)
                    } else {
                        Err(StatusCode::BadAddress)
                    }
                },
                _ => Ok(id_address_bytes(id)),
            },
        },
    }
}

fn copy_bytes(src: &Vec<u8>) -> (r: Vec<u8>)
    ensures
        r@ == src@,
{
    let mut out: Vec<u8> = Vec::new();
    let mut i: usize = 0;
    while i < src.len()
        invariant
            i <= src@.len(),
            out@ =~= src@.subrange(0, i as int),
        decreases src@.len() - i,
    {
        out.push(src[i]);
        i = i + 1;
    }
    out
}

pub(crate) fn subaddress_to_eth(subaddress: &Vec<u8>) -> (r: Result<EthAddress, StatusCode>)
    ensures
        match r {
            Ok(a) => subaddress@.len() == 20 && a.bytes@ == subaddress@,
            Err(e) => subaddress@.len() != 20 && e == StatusCode::BadAddress,
        },
{
    if subaddress.len() == 20 {
        Ok(EthAddress { bytes: copy_bytes(subaddress) })
    } else {
        Err(StatusCode::BadAddress)
    }
}

impl EthAddress {
    pub open spec fn wf(&self) -> bool {
        self.bytes@.len() == 20
    }

    /// The address held in the low 20 bytes of a word whose high 12 bytes are zero.
    pub fn from_u256(v: U256) -> (r: Result<EthAddress, StatusCode>)
        ensures
            match r {
                Ok(a) => {
                    &&& a.wf()
                    &&& (forall|i: int| 0 <= i < 12 ==> v.bytes_spec()[i] == 0)
                    &&& a.bytes@ == v.bytes_spec().subrange(12, 32)
                },
                Err(e) => {
                    &&& e == StatusCode::BadAddress
                    &&& exists|i: int| 0 <= i < 12 && v.bytes_spec()[i] != 0
                },
            },
    {
        let b = v.to_big_endian();
        let mut i: usize = 0;
        while i < 12
            invariant
                i <= 12,
                b@ == v.bytes_spec(),
                b@.len() == 32,
                forall|j: int| 0 <= j < i ==> b@[j] == 0,
            decreases 12 - i,
        {
            if b[i] != 0 {
                return Err(StatusCode::BadAddress);
            }
            i = i + 1;
        }
        let mut out: Vec<u8> = Vec::new();
        let mut k: usize = 12;
        while k < 32
            invariant
                12 <= k <= 32,
                b@.len() == 32,
                out@ =~= b@.subrange(12, k as int),
            decreases 32 - k,
        {
            out.push(b[k]);
            k = k + 1;
        }
        Ok(EthAddress { bytes: out })
    }

    /// The address that stands for actor `id`.
    pub fn from_id(id: u64) -> (r: EthAddress)
        ensures
            r.wf(),
            r.bytes@ == id_address_bytes(id),
    {
        let mut out: Vec<u8> = Vec::new();
        out.push(0xff);
        let mut i: usize = 0;
        while i < 11
            invariant
                i <= 11,
                out@ =~= seq![0xffu8] + Seq::new(i as nat, |j: int| 0u8),
            decreases 11 - i,
        {
            out.push(0);
            i = i + 1;
        }
        let ghost head = out@;
        let mut k: usize = 0;
        while k < 8
            invariant
                k <= 8,
                head == seq![0xffu8] + Seq::new(11, |j: int| 0u8),
                out@ =~= head + u64_bytes(id).subrange(0, k as int),
            decreases 8 - k,
        {
            let shift: u64 = (8 * (7 - k)) as u64;
            out.push(((id >> shift) & 0xff) as u8);
            k = k + 1;
        }
        assert(u64_bytes(id).subrange(0, 8) =~= u64_bytes(id));
        EthAddress { bytes: out }
    }

    /// The native address of this one, in the EVM namespace.
    pub fn to_native(&self) -> (r: NativeAddress)
        ensures
            r matches NativeAddress::Delegated { namespace, subaddress }
                && namespace == EAM_ACTOR_ID && subaddress@ == self.bytes@,
    {
        NativeAddress::Delegated { namespace: EAM_ACTOR_ID, subaddress: copy_bytes(&self.bytes) }
    }
}

} // verus!
