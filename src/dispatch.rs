use vstd::prelude::*;
use crate::address::{EthAddress, NativeAddress};
use crate::call::CallKind;
use crate::envelope::{bytes_envelope, envelope_content, open_envelope, seal_envelope};
use crate::memory::{
    access_ok, after_access, copied, copy_to_memory, get_memory_region, MemoryRegion, StatusCode,
};
use crate::state::ExecutionState;
use crate::u256::U256;

verus! {

/// Invokes a contract.
pub const METHOD_INVOKE_CONTRACT: u64 = 2;

/// Invokes a contract that must not change any state.
pub const METHOD_INVOKE_CONTRACT_READ_ONLY: u64 = 5;

/// Runs another contract's code in the receiver's own context.
pub const METHOD_INVOKE_CONTRACT_DELEGATE: u64 = 6;

/// Addresses `1..=PRECOMPILE_COUNT` are precompiles.
pub const PRECOMPILE_COUNT: u64 = 9;

/// Relies on `fvm_shared::METHOD_SEND`: the method that only transfers value.
#[verifier::external_body]
fn method_send() -> (r: u64)
    ensures
        r == 0,
{
    fvm_shared::METHOD_SEND
}

/// What the host knows of a call's destination.
#[derive(Clone, Copy, Debug, PartialEq, Eq, Structural)]
pub enum TargetKind {
    /// No actor is found there.
    Missing,
    /// A plain account.
    Account,
    /// An address that holds value but no code yet.
    Embryo,
    /// Any other actor.
    Contract,
}

/// A call instruction whose operands have been read.
pub struct PendingCall {
    pub kind: CallKind,
    pub dst: U256,
    pub value: U256,
    pub input: Vec<u8>,
    pub output_offset: U256,
    pub output_size: U256,
}

/// Where a pending call goes next.
#[derive(Debug)]
pub enum Route {
    /// To the precompile at the destination.
    Precompile,
    /// To the actor at this address.
    Actor(EthAddress),
    /// To the receiver itself, running the destination's code.
    Delegate,
}

/// A native send.
#[derive(Debug)]
pub struct SendRequest {
    pub to: NativeAddress,
    pub method: u64,
    pub params: Vec<u8>,
    pub value: U256,
}

/// What to do for a call to an actor.
#[derive(Debug)]
pub enum Dispatch {
    /// Nothing to send: the call succeeds with no return data.
    Done,
    /// Perform this send.
    Send(SendRequest),
}

/// The parameters of a delegated call, sent to the receiver itself.
#[derive(Debug)]
pub struct DelegateCallParams {
    /// The binary form of the content identifier of the code to run.
    pub code: Vec<u8>,
    pub input: Vec<u8>,
    pub readonly: bool,
}

/// How a sub-call ended.
#[derive(Debug)]
pub enum CallOutcome {
    /// It returned these bytes.
    Returned(Vec<u8>),
    /// It failed.
    Reverted,
    /// The precompile it reached failed.
    PrecompileFailed,
}

pub open spec fn takes_value(kind: CallKind) -> bool {
    kind == CallKind::Call || kind == CallKind::CallCode
}

pub open spec fn operand_count(kind: CallKind) -> int {
    if takes_value(kind) {
        7
    } else {
        6
    }
}

/// The value a call transfers: zero where the kind has no value operand.
pub open spec fn call_value(s: ExecutionState, kind: CallKind) -> U256 {
    if takes_value(kind) {
        s.peek(2)
    } else {
        U256 { hi: 0, lo: 0 }
    }
}

/// The `n`th operand after destination and value.
pub open spec fn call_arg(s: ExecutionState, kind: CallKind, n: int) -> U256 {
    s.peek(operand_count(kind) - 4 + n)
}

/// The `size` bytes of memory at `offset`; nothing for a zero size.
pub open spec fn region_bytes(mem: Seq<u8>, offset: nat, size: nat) -> Seq<u8> {
    if size == 0 {
        Seq::empty()
    } else {
        mem.subrange(offset as int, (offset + size) as int)
    }
}

pub open spec fn is_precompile_spec(dst: U256) -> bool {
    1 <= dst@ <= PRECOMPILE_COUNT
}

/// The method a call to an actor of `target` invokes.
pub open spec fn send_method(kind: CallKind, readonly: bool, target: TargetKind) -> u64 {
    if target == TargetKind::Missing || target == TargetKind::Account || target
        == TargetKind::Embryo {
        0
    } else if readonly || kind == CallKind::StaticCall {
        METHOD_INVOKE_CONTRACT_READ_ONLY
    } else {
        METHOD_INVOKE_CONTRACT
    }
}

fn read_region(mem: &Vec<u8>, region: MemoryRegion) -> (r: Vec<u8>)
    requires
        region.offset + region.size <= mem@.len(),
    ensures
        r@ == mem@.subrange(region.offset as int, region.offset + region.size),
{
    let n = mem.len();
    let mut out: Vec<u8> = Vec::new();
    let mut i: usize = 0;
    while i < region.size
        invariant
            n == mem@.len(),
            i <= region.size,
            region.offset + region.size <= mem@.len(),
            out@ =~= mem@.subrange(region.offset as int, region.offset + i),
        decreases region.size - i,
    {
        out.push(mem[region.offset + i]);
        i = i + 1;
    }
    out
}

/// Whether `dst` is the address of a precompile.
pub fn is_precompile(dst: &U256) -> (r: bool)
    ensures
        r == is_precompile_spec(*dst),
{
    match dst.to_u64() {
        Some(v) => 1 <= v && v <= PRECOMPILE_COUNT,
        None => false,
    }
}

/// Reads the operands of a call instruction of `kind`, enforces read-only
/// mode and reads the call's input from memory.
pub fn call_prepare(state: &mut ExecutionState, readonly: bool, kind: CallKind) -> (r: Result<
    PendingCall,
    StatusCode,
>)
    requires
        old(state).wf(),
        old(state).stack@.len() >= operand_count(kind),
    ensures
        final(state).wf(),
        final(state).stack@ == old(state).popped(operand_count(kind)),
        final(state).input_data == old(state).input_data,
        final(state).return_data == old(state).return_data,
        final(state).method == old(state).method,
        readonly && call_value(*old(state), kind)@ > 0 ==> r == Err::<PendingCall, StatusCode>(
            StatusCode::StaticModeViolation,
        ) && final(state).memory@ == old(state).memory@,
        !(readonly && call_value(*old(state), kind)@ > 0) && !access_ok(
            call_arg(*old(state), kind, 0)@,
            call_arg(*old(state), kind, 1)@,
        ) ==> r == Err::<PendingCall, StatusCode>(StatusCode::InvalidMemoryAccess)
            && final(state).memory@ == old(state).memory@,
        !(readonly && call_value(*old(state), kind)@ > 0) && access_ok(
            call_arg(*old(state), kind, 0)@,
            call_arg(*old(state), kind, 1)@,
        ) ==> r.is_ok(),
        r matches Ok(p) ==> {
            &&& final(state).memory@ == after_access(
                old(state).memory@,
                call_arg(*old(state), kind, 0)@,
                call_arg(*old(state), kind, 1)@,
            )
            &&& p.kind == kind
            &&& p.dst == old(state).peek(1)
            &&& p.value == call_value(*old(state), kind)
            &&& p.input@ == region_bytes(
                final(state).memory@,
                call_arg(*old(state), kind, 0)@,
                call_arg(*old(state), kind, 1)@,
            )
            &&& p.output_offset == call_arg(*old(state), kind, 2)
            &&& p.output_size == call_arg(*old(state), kind, 3)
        },
{
    let _gas = state.pop();
    let dst = state.pop();
    let value = match kind {
        CallKind::Call | CallKind::CallCode => state.pop(),
        CallKind::DelegateCall | CallKind::StaticCall => U256::zero(),
    };
    let input_offset = state.pop();
    let input_size = state.pop();
    let output_offset = state.pop();
    let output_size = state.pop();
    if readonly && !value.is_zero() {
        return Err(StatusCode::StaticModeViolation);
    }
    let input = match get_memory_region(&mut state.memory, input_offset, input_size) {
        Err(e) => return Err(e),
        Ok(None) => Vec::new(),
        Ok(Some(region)) => read_region(&state.memory, region),
    };
    Ok(PendingCall { kind, dst, value, input, output_offset, output_size })
}

/// Decides where a pending call goes: a precompile, an actor, or the
/// receiver itself for a delegated call.
pub fn call_route(pending: &PendingCall) -> (r: Result<Route, StatusCode>)
    ensures
        is_precompile_spec(pending.dst) ==> r matches Ok(Route::Precompile),
        !is_precompile_spec(pending.dst) ==> match pending.kind {
            CallKind::Call | CallKind::StaticCall => match r {
                Ok(Route::Actor(a)) => a.wf() && a.bytes@ == pending.dst.bytes_spec().subrange(
                    12,
                    32,
                ) && (forall|i: int| 0 <= i < 12 ==> pending.dst.bytes_spec()[i] == 0),
                Err(e) => e == StatusCode::BadAddress && exists|i: int|
                    0 <= i < 12 && pending.dst.bytes_spec()[i] != 0,
                _ => false,
            },
            CallKind::DelegateCall => r matches Ok(Route::Delegate),
            CallKind::CallCode => r == Err::<Route, StatusCode>(StatusCode::Unsupported),
        },
{
    if is_precompile(&pending.dst) {
        return Ok(Route::Precompile);
    }
    match pending.kind {
        CallKind::Call | CallKind::StaticCall => match EthAddress::from_u256(pending.dst) {
            Ok(a) => Ok(Route::Actor(a)),
            Err(e) => Err(e),
        },
        CallKind::DelegateCall => Ok(Route::Delegate),
        CallKind::CallCode => Err(StatusCode::Unsupported),
    }
}

/// Decides how to call the actor at `to`, of which the host reports `target`.
/// Nothing is sent to a missing actor without value; a missing actor, an
/// account or an embryo gets a plain value transfer; any other actor is
/// invoked, read-only where the frame is read-only or the call is static.
pub fn call_actor_dispatch(
    pending: &PendingCall,
    readonly: bool,
    to: &EthAddress,
    target: TargetKind,
) -> (r: Dispatch)
    ensures
        target == TargetKind::Missing && pending.value@ == 0 ==> r matches Dispatch::Done,
        !(target == TargetKind::Missing && pending.value@ == 0) ==> match r {
            Dispatch::Send(req) => {
                &&& req.to matches NativeAddress::Delegated { namespace, subaddress }
                &&& req.to->namespace == crate::address::EAM_ACTOR_ID
                &&& req.to->subaddress@ == to.bytes@
                &&& req.method == send_method(pending.kind, readonly, target)
                &&& req.params@ == bytes_envelope(pending.input@)
                &&& req.value == pending.value
            },
            Dispatch::Done => false,
        },
{
    if target == TargetKind::Missing && pending.value.is_zero() {
        return Dispatch::Done;
    }
    let method = if target == TargetKind::Missing || target == TargetKind::Account || target
        == TargetKind::Embryo {
        method_send()
    } else if readonly || pending.kind == CallKind::StaticCall {
        METHOD_INVOKE_CONTRACT_READ_ONLY
    } else {
        METHOD_INVOKE_CONTRACT
    };
    let sealed = seal_envelope(pending.input.as_slice());
    let params = match sealed {
        Ok(p) => p,
        Err(_) => {
            proof {
                assert(sealed is Ok);
            }
            Vec::new()
        },
    };
    Dispatch::Send(SendRequest { to: to.to_native(), method, params, value: pending.value })
}

/// The parameters of a delegated call running `code`: the read-only flag is
/// the caller's own.
pub fn delegate_call_params(pending: &PendingCall, readonly: bool, code: Vec<u8>) -> (r:
    DelegateCallParams)
    ensures
        r.readonly == readonly,
        r.input@ == pending.input@,
        r.code@ == code@,
{
    let input = pending.input.clone();
    DelegateCallParams { code, input, readonly }
}

/// The wire form of delegated-call parameters: a CBOR array of three items,
/// the code's content identifier (tag 42 over a byte string of a zero byte
/// followed by the identifier's bytes), the input as a byte string, and the
/// read-only flag.
pub open spec fn delegate_params_encoding(code: Seq<u8>, input: Seq<u8>, readonly: bool) -> Seq<
    u8,
> {
    seq![0x83u8, 0xd8u8, 0x2au8] + bytes_envelope(seq![0u8] + code) + bytes_envelope(input) + seq![
        if readonly {
            0xf5u8
        } else {
            0xf4u8
        },
    ]
}

fn extend_bytes(out: &mut Vec<u8>, src: &[u8])
    ensures
        final(out)@ == old(out)@ + src@,
{
    let ghost start = out@;
    let n = src.len();
    let mut i: usize = 0;
    while i < n
        invariant
            n == src@.len(),
            i <= n,
            out@ =~= start + src@.subrange(0, i as int),
        decreases n - i,
    {
        out.push(src[i]);
        i = i + 1;
    }
    assert(src@.subrange(0, n as int) =~= src@);
}

fn sealed(data: &[u8]) -> (r: Vec<u8>)
    ensures
        r@ == bytes_envelope(data@),
{
    let e = seal_envelope(data);
    match e {
        Ok(v) => v,
        Err(_) => {
            proof {
                assert(e is Ok);
            }
            Vec::new()
        },
    }
}

/// Encodes delegated-call parameters.
pub fn encode_delegate_params(p: &DelegateCallParams) -> (r: Vec<u8>)
    ensures
        r@ == delegate_params_encoding(p.code@, p.input@, p.readonly),
{
    let mut prefixed: Vec<u8> = Vec::new();
    prefixed.push(0);
    extend_bytes(&mut prefixed, p.code.as_slice());
    let mut out: Vec<u8> = Vec::new();
    out.push(0x83);
    out.push(0xd8);
    out.push(0x2a);
    extend_bytes(&mut out, sealed(prefixed.as_slice()).as_slice());
    extend_bytes(&mut out, sealed(p.input.as_slice()).as_slice());
    out.push(if p.readonly { 0xf5 } else { 0xf4 });
    assert(out@ =~= delegate_params_encoding(p.code@, p.input@, p.readonly));
    out
}

/// The send of a delegated call: the parameters of `delegate_call_params`,
/// encoded, sent with the call's value to the receiver itself, invoking the
/// delegated method. `code` is the binary form of the content identifier
/// of the code to run.
pub fn delegate_call_send(
    pending: &PendingCall,
    readonly: bool,
    code: Vec<u8>,
    receiver: NativeAddress,
) -> (r: SendRequest)
    ensures
        r.to == receiver,
        r.method == METHOD_INVOKE_CONTRACT_DELEGATE,
        r.params@ == delegate_params_encoding(code@, pending.input@, readonly),
        r.value == pending.value,
{
    let params = delegate_call_params(pending, readonly, code);
    let bytes = encode_delegate_params(&params);
    SendRequest { to: receiver, method: METHOD_INVOKE_CONTRACT_DELEGATE, params: bytes, value: pending.value }
}

/// The return data of a successful send: nothing for an empty result, else
/// the bytes its byte-string encoding carries.
pub fn decode_call_result(raw: &Vec<u8>) -> (r: Result<Vec<u8>, StatusCode>)
    ensures
        raw@.len() == 0 ==> (r matches Ok(v) && v@.len() == 0),
        raw@.len() > 0 ==> match envelope_content(raw@) {
            Some(c) => (r matches Ok(v) && v@ == c),
            None => r == Err::<Vec<u8>, StatusCode>(StatusCode::InternalError),
        },
{
    if raw.len() == 0 {
        return Ok(Vec::new());
    }
    match open_envelope(raw.as_slice()) {
        Ok(v) => Ok(v),
        Err(_) => Err(StatusCode::InternalError),
    }
}

/// Completes a call: a failed sub-call pushes zero and touches nothing else;
/// otherwise its output becomes the return data, is copied into the output
/// region (zero-filled past its end), and one is pushed.
pub fn call_finish(state: &mut ExecutionState, pending: &PendingCall, outcome: CallOutcome) -> (r:
    Result<(), StatusCode>)
    requires
        old(state).wf(),
    ensures
        final(state).wf(),
        final(state).input_data == old(state).input_data,
        final(state).method == old(state).method,
        match outcome {
            CallOutcome::Reverted => {
                &&& r is Ok
                &&& final(state).stack@ == old(state).stack@.push(U256 { hi: 0, lo: 0 })
                &&& final(state).memory@ == old(state).memory@
                &&& final(state).return_data@ == old(state).return_data@
            },
            CallOutcome::PrecompileFailed => {
                &&& r == Err::<(), StatusCode>(StatusCode::PrecompileFailure)
                &&& final(state).stack@ == old(state).stack@
                &&& final(state).memory@ == old(state).memory@
                &&& final(state).return_data@ == old(state).return_data@
            },
            CallOutcome::Returned(data) => {
                &&& final(state).return_data@ == data@
                &&& (r is Ok <==> access_ok(pending.output_offset@, pending.output_size@))
                &&& r is Ok ==> final(state).stack@ == old(state).stack@.push(
                    U256 { hi: 0, lo: 1 },
                ) && final(state).memory@ == copied(
                    old(state).memory@,
                    pending.output_offset@,
                    pending.output_size@,
                    data@,
                    0,
                )
                &&& r is Err ==> r == Err::<(), StatusCode>(StatusCode::InvalidMemoryAccess)
                    && final(state).stack@ == old(state).stack@ && final(state).memory@ == old(
                    state,
                ).memory@
            },
        },
{
    match outcome {
        CallOutcome::Reverted => {
            state.stack.push(U256::zero());
            Ok(())
        },
        CallOutcome::PrecompileFailed => Err(StatusCode::PrecompileFailure),
        CallOutcome::Returned(data) => {
            state.return_data = data;
            let r = copy_to_memory(
                &mut state.memory,
                pending.output_offset,
                pending.output_size,
                U256::zero(),
                state.return_data.as_slice(),
            );
            match r {
                Ok(()) => {
                    state.stack.push(U256::from_u64(1));
                    Ok(())
                },
                Err(e) => Err(e),
            }
        },
    }
}

/// Reads the operands of a raw actor call and builds its send; refused
/// under read-only mode, since nothing could hold the callee to it.
pub fn callactor_prepare(state: &mut ExecutionState, readonly: bool) -> (r: Result<
    SendRequest,
    StatusCode,
>)
    requires
        old(state).wf(),
        readonly || old(state).stack@.len() >= 6,
    ensures
        final(state).wf(),
        final(state).input_data == old(state).input_data,
        final(state).return_data == old(state).return_data,
        final(state).method == old(state).method,
        readonly ==> r == Err::<SendRequest, StatusCode>(StatusCode::StaticModeViolation)
            && final(state).stack@ == old(state).stack@ && final(state).memory@ == old(
            state,
        ).memory@,
        !readonly ==> final(state).stack@ == old(state).popped(6),
        !readonly && !access_ok(old(state).peek(4)@, old(state).peek(5)@) ==> r == Err::<
            SendRequest,
            StatusCode,
        >(StatusCode::InvalidMemoryAccess),
        !readonly && access_ok(old(state).peek(4)@, old(state).peek(5)@) ==> final(state).memory@
            == after_access(old(state).memory@, old(state).peek(4)@, old(state).peek(5)@) && match r {
            Ok(req) => {
                &&& (forall|i: int| 0 <= i < 12 ==> old(state).peek(1).bytes_spec()[i] == 0)
                &&& old(state).peek(3)@ <= u64::MAX
                &&& req.to matches NativeAddress::Delegated { namespace, subaddress }
                &&& req.to->namespace == crate::address::EAM_ACTOR_ID
                &&& req.to->subaddress@ == old(state).peek(1).bytes_spec().subrange(12, 32)
                &&& req.method as nat == old(state).peek(3)@
                &&& req.params@ == region_bytes(
                    final(state).memory@,
                    old(state).peek(4)@,
                    old(state).peek(5)@,
                )
                &&& req.value == old(state).peek(2)
            },
            Err(e) => {
                ||| (e == StatusCode::BadAddress && exists|i: int|
                    0 <= i < 12 && old(state).peek(1).bytes_spec()[i] != 0)
                ||| (e == StatusCode::ArgumentOutOfRange && (forall|i: int|
                    0 <= i < 12 ==> old(state).peek(1).bytes_spec()[i] == 0) && old(state).peek(3)@
                    > u64::MAX)
            },
        },
{
    if readonly {
        return Err(StatusCode::StaticModeViolation);
    }
    let ghost s0 = *state;
    let _gas = state.pop();
    let dst = state.pop();
    let value = state.pop();
    let method = state.pop();
    let input_offset = state.pop();
    let input_size = state.pop();
    assert(dst == s0.peek(1) && value == s0.peek(2) && method == s0.peek(3));
    assert(input_offset == s0.peek(4) && input_size == s0.peek(5));
    assert(state.stack@ =~= s0.popped(6));
    let region = match get_memory_region(&mut state.memory, input_offset, input_size) {
        Err(e) => return Err(e),
        Ok(region) => region,
    };
    let to = match EthAddress::from_u256(dst) {
        Ok(a) => a,
        Err(e) => return Err(e),
    };
    let method = match method.to_u64() {
        Some(m) => m,
        None => return Err(StatusCode::ArgumentOutOfRange),
    };
    let params = match region {
        None => Vec::new(),
        Some(region) => read_region(&state.memory, region),
    };
    Ok(SendRequest { to: to.to_native(), method, params, value })
}

/// Completes a raw actor call: on success its output becomes the return data
/// and zero is pushed; on failure the exit code is pushed.
pub fn callactor_finish(state: &mut ExecutionState, outcome: Result<Vec<u8>, u32>)
    ensures
        final(state).memory == old(state).memory,
        final(state).input_data == old(state).input_data,
        final(state).method == old(state).method,
        match outcome {
            Ok(data) => {
                &&& final(state).return_data@ == data@
                &&& final(state).stack@ == old(state).stack@.push(U256 { hi: 0, lo: 0 })
            },
            Err(code) => {
                &&& final(state).return_data == old(state).return_data
                &&& final(state).stack@ == old(state).stack@.push(
                    U256 { hi: 0, lo: code as u128 },
                )
            },
        },
{
    match outcome {
        Ok(data) => {
            state.return_data = data;
            state.stack.push(U256::zero());
        },
        Err(code) => {
            state.stack.push(U256::from_u64(code as u64));
        },
    }
}

} // verus!
