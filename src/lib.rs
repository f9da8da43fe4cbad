//! Call dispatch and contract storage for an EVM interpreter hosted on a
//! native actor VM.
pub mod address;
pub mod call;
pub mod dispatch;
pub mod envelope;
pub mod memory;
pub mod state;
pub mod storage;
pub mod u256;

pub use address::{EthAddress, NativeAddress};
pub use call::{calldatacopy, calldataload, calldatasize, codecopy, codesize, methodnum, CallKind};
pub use dispatch::{
    call_actor_dispatch, call_finish, call_prepare, call_route, callactor_finish,
    callactor_prepare, decode_call_result, delegate_call_params, delegate_call_send, encode_delegate_params, CallOutcome, DelegateCallParams,
    Dispatch, PendingCall, Route, SendRequest, TargetKind,
};
pub use memory::{copy_to_memory, get_memory_region, MemoryRegion, StatusCode};
pub use state::ExecutionState;
pub use storage::{StorageStatus, StorageTrie, System};
pub use u256::U256;
