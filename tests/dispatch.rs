use evm_call::address::EAM_ACTOR_ID;
use cid::Cid;
use evm_call::dispatch::{
    METHOD_INVOKE_CONTRACT, METHOD_INVOKE_CONTRACT_DELEGATE, METHOD_INVOKE_CONTRACT_READ_ONLY,
};
use fvm_ipld_blockstore::MemoryBlockstore;
use std::rc::Rc;

fn fresh() -> System {
    System::new(StorageTrie::new(&Rc::new(MemoryBlockstore::default())), false)
}

/// Some content identifier: the root of a small trie.
fn some_cid() -> Cid {
    let mut sys = fresh();
    sys.set_storage(U256 { hi: 0, lo: 1 }, Some(U256 { hi: 0, lo: 2 })).unwrap();
    sys.flush_state().unwrap()
}
use evm_call::{
    call_actor_dispatch, call_finish, call_prepare, call_route, callactor_finish,
    callactor_prepare, decode_call_result, delegate_call_params, delegate_call_send,
    CallKind, CallOutcome, Dispatch, EthAddress, ExecutionState, NativeAddress, PendingCall,
    Route, StatusCode, StorageTrie, System, TargetKind, U256,
};

fn w(v: u128) -> U256 {
    U256 { hi: 0, lo: v }
}

/// Pushes operands so that the first one listed ends on top.
fn state_with_ops(ops: &[U256]) -> ExecutionState {
    let mut s = ExecutionState::new(vec![], 0);
    for v in ops.iter().rev() {
        s.stack.push(*v);
    }
    s
}

fn pending(kind: CallKind, value: u128, input: Vec<u8>) -> PendingCall {
    PendingCall {
        kind,
        dst: w(0x1234),
        value: w(value),
        input,
        output_offset: w(0),
        output_size: w(0),
    }
}

fn addr() -> EthAddress {
    let mut bytes = vec![0u8; 20];
    bytes[19] = 0x34;
    bytes[18] = 0x12;
    EthAddress { bytes }
}

#[test]
fn static_mode_refuses_value() {
    let ops = [w(0), w(0x1234), w(1), w(0), w(0), w(0), w(0)];
    let mut s = state_with_ops(&ops);
    assert!(matches!(
        call_prepare(&mut s, true, CallKind::Call),
        Err(StatusCode::StaticModeViolation)
    ));
    let mut s = state_with_ops(&ops);
    assert!(matches!(
        call_prepare(&mut s, true, CallKind::CallCode),
        Err(StatusCode::StaticModeViolation)
    ));
    // Without a value operand, the third operand is the input offset.
    let mut s = state_with_ops(&ops[..6]);
    assert!(call_prepare(&mut s, true, CallKind::StaticCall).is_ok());
    let mut s = state_with_ops(&ops[..6]);
    assert!(call_prepare(&mut s, true, CallKind::DelegateCall).is_ok());
}

#[test]
fn prepare_reads_input() {
    let ops = [w(0), w(0x1234), w(5), w(2), w(3), w(40), w(8)];
    let mut s = state_with_ops(&ops);
    s.memory = (0..32).collect();
    let p = call_prepare(&mut s, false, CallKind::Call).unwrap();
    assert_eq!(p.input, vec![2, 3, 4]);
    assert_eq!(p.value, w(5));
    assert_eq!(p.dst, w(0x1234));
    assert_eq!((p.output_offset, p.output_size), (w(40), w(8)));
    assert!(s.stack.is_empty());
}

#[test]
fn routes() {
    assert!(matches!(call_route(&pending(CallKind::Call, 0, vec![])), Ok(Route::Actor(_))));
    let mut p = pending(CallKind::Call, 0, vec![]);
    p.dst = w(4);
    assert!(matches!(call_route(&p), Ok(Route::Precompile)));
    p.dst = U256 { hi: 1 << 100, lo: 0 };
    assert!(matches!(call_route(&p), Err(StatusCode::BadAddress)));
    assert!(matches!(
        call_route(&pending(CallKind::DelegateCall, 0, vec![])),
        Ok(Route::Delegate)
    ));
    assert!(matches!(
        call_route(&pending(CallKind::CallCode, 0, vec![])),
        Err(StatusCode::Unsupported)
    ));
}

#[test]
fn missing_actor_without_value_is_noop() {
    let p = pending(CallKind::Call, 0, vec![1, 2]);
    assert!(matches!(
        call_actor_dispatch(&p, false, &addr(), TargetKind::Missing),
        Dispatch::Done
    ));
    let mut s = ExecutionState::new(vec![], 0);
    s.return_data = vec![9, 9];
    assert_eq!(call_finish(&mut s, &p, CallOutcome::Returned(vec![])), Ok(()));
    assert!(s.return_data.is_empty());
    assert_eq!(s.stack, vec![w(1)]);
}

#[test]
fn missing_actor_with_value_sends() {
    let p = pending(CallKind::Call, 10, vec![1, 2, 3]);
    match call_actor_dispatch(&p, false, &addr(), TargetKind::Missing) {
        Dispatch::Send(req) => {
            assert_eq!(req.method, 0);
            assert_eq!(req.value, w(10));
            assert_eq!(req.params, vec![0x43, 1, 2, 3]);
            match req.to {
                NativeAddress::Delegated { namespace, subaddress } => {
                    assert_eq!(namespace, EAM_ACTOR_ID);
                    assert_eq!(subaddress, addr().bytes);
                }
                _ => panic!("not a delegated address"),
            }
        }
        _ => panic!("expected a send"),
    }
}

#[test]
fn method_selection() {
    let p = pending(CallKind::Call, 0, vec![]);
    let m = |p: &PendingCall, ro: bool, t: TargetKind| match call_actor_dispatch(p, ro, &addr(), t)
    {
        Dispatch::Send(req) => req.method,
        _ => panic!("expected a send"),
    };
    assert_eq!(m(&p, false, TargetKind::Contract), METHOD_INVOKE_CONTRACT);
    assert_eq!(m(&p, true, TargetKind::Contract), METHOD_INVOKE_CONTRACT_READ_ONLY);
    assert_eq!(m(&p, false, TargetKind::Account), 0);
    assert_eq!(m(&p, false, TargetKind::Embryo), 0);
    let q = pending(CallKind::StaticCall, 0, vec![]);
    assert_eq!(m(&q, false, TargetKind::Contract), METHOD_INVOKE_CONTRACT_READ_ONLY);
}

#[test]
fn delegate_keeps_caller_readonly() {
    let p = pending(CallKind::DelegateCall, 0, vec![7]);
    let code = some_cid().to_bytes();
    let a = delegate_call_params(&p, true, code.clone());
    assert!(a.readonly);
    assert_eq!(a.input, vec![7]);
    assert_eq!(a.code, code);
    let b = delegate_call_params(&p, false, code);
    assert!(!b.readonly);
}

#[test]
fn decode_results() {
    assert_eq!(decode_call_result(&vec![]), Ok(vec![]));
    assert_eq!(decode_call_result(&vec![0x43, 1, 2, 3]), Ok(vec![1, 2, 3]));
    assert_eq!(decode_call_result(&vec![0x01]), Err(StatusCode::InternalError));
}

#[test]
fn failed_call_pushes_zero_only() {
    let mut p = pending(CallKind::Call, 0, vec![]);
    p.output_offset = w(0);
    p.output_size = w(16);
    let mut s = ExecutionState::new(vec![], 0);
    s.memory = vec![0xee; 32];
    s.return_data = vec![4, 5];
    assert_eq!(call_finish(&mut s, &p, CallOutcome::Reverted), Ok(()));
    assert_eq!(s.stack, vec![U256::zero()]);
    assert_eq!(s.memory, vec![0xee; 32]);
    assert_eq!(s.return_data, vec![4, 5]);
}

#[test]
fn returned_call_fills_output() {
    let mut p = pending(CallKind::Call, 0, vec![]);
    p.output_offset = w(4);
    p.output_size = w(8);
    let mut s = ExecutionState::new(vec![], 0);
    s.memory = vec![0xee; 32];
    assert_eq!(call_finish(&mut s, &p, CallOutcome::Returned(vec![1, 2, 3])), Ok(()));
    assert_eq!(s.stack, vec![w(1)]);
    assert_eq!(s.return_data, vec![1, 2, 3]);
    assert_eq!(&s.memory[..14], &[0xee, 0xee, 0xee, 0xee, 1, 2, 3, 0, 0, 0, 0, 0, 0xee, 0xee]);
    let mut s = ExecutionState::new(vec![], 0);
    assert_eq!(
        call_finish(&mut s, &p, CallOutcome::PrecompileFailed),
        Err(StatusCode::PrecompileFailure)
    );
}

#[test]
fn callactor_paths() {
    let ops = [w(0), w(0x1234), w(3), w(77), w(0), w(2)];
    let mut s = state_with_ops(&ops);
    assert!(matches!(callactor_prepare(&mut s, true), Err(StatusCode::StaticModeViolation)));
    assert_eq!(s.stack.len(), 6);
    s.memory = vec![8, 9, 10];
    let req = callactor_prepare(&mut s, false).unwrap();
    assert_eq!(req.method, 77);
    assert_eq!(req.params, vec![8, 9]);
    assert_eq!(req.value, w(3));
    let ops = [w(0), w(0x1234), w(0), U256 { hi: 0, lo: 1 << 64 }, w(0), w(0)];
    let mut s = state_with_ops(&ops);
    assert!(matches!(callactor_prepare(&mut s, false), Err(StatusCode::ArgumentOutOfRange)));
    let mut s = ExecutionState::new(vec![], 0);
    callactor_finish(&mut s, Ok(vec![1]));
    callactor_finish(&mut s, Err(33));
    assert_eq!(s.stack, vec![w(0), w(33)]);
    assert_eq!(s.return_data, vec![1]);
}

#[test]
fn eth_addresses() {
    let sys = fresh();
    let a = EthAddress::from_id(0x0102);
    let mut expected = vec![0xff];
    expected.extend([0u8; 17]);
    expected.extend([1, 2]);
    assert_eq!(a.bytes, expected);
    let d = NativeAddress::Delegated { namespace: EAM_ACTOR_ID, subaddress: vec![3; 20] };
    assert_eq!(sys.resolve_ethereum_address(&d, None, &None).unwrap().bytes, vec![3; 20]);
    let bad = NativeAddress::Delegated { namespace: EAM_ACTOR_ID, subaddress: vec![3; 19] };
    assert!(matches!(sys.resolve_ethereum_address(&bad, Some(1), &None), Err(StatusCode::BadAddress)));
    let id = NativeAddress::Id(100);
    assert!(matches!(sys.resolve_ethereum_address(&id, None, &None), Err(StatusCode::BadAddress)));
    assert_eq!(
        sys.resolve_ethereum_address(&id, Some(0x0102), &Some(NativeAddress::Id(0x0102)))
            .unwrap()
            .bytes,
        expected
    );
    assert_eq!(
        sys.resolve_ethereum_address(&id, Some(5), &Some(d.clone())).unwrap().bytes,
        vec![3; 20]
    );
    assert!(matches!(EthAddress::from_u256(U256 { hi: 1 << 96, lo: 0 }), Err(StatusCode::BadAddress)));
    assert_eq!(EthAddress::from_u256(w(0x1234)).unwrap().bytes, addr().bytes);
}

#[test]
fn delegate_send_goes_to_receiver() {
    let p = pending(CallKind::DelegateCall, 0, vec![7, 8]);
    let code = some_cid();
    let receiver = NativeAddress::Id(1000);
    let req = delegate_call_send(&p, true, code.to_bytes(), receiver);
    assert_eq!(req.method, METHOD_INVOKE_CONTRACT_DELEGATE);
    assert_eq!(req.value, w(0));
    assert!(matches!(req.to, NativeAddress::Id(1000)));
    let code_bytes = code.to_bytes();
    // A three-element array: the tagged identifier, the input, and `true`.
    assert_eq!(req.params[0], 0x83);
    assert_eq!(&req.params[req.params.len() - 4..], &[0x42, 7, 8, 0xf5]);
    assert!(req.params.windows(code_bytes.len()).any(|x| x == &code_bytes[..]));
}

#[test]
fn envelope_heads() {
    let m = |n: usize| match call_actor_dispatch(
        &pending(CallKind::Call, 1, vec![9; n]),
        false,
        &addr(),
        TargetKind::Contract,
    ) {
        Dispatch::Send(req) => req.params,
        _ => panic!("expected a send"),
    };
    assert_eq!(m(0), vec![0x40]);
    assert_eq!(&m(24)[..2], &[0x58, 24]);
    assert_eq!(m(24).len(), 26);
    assert_eq!(&m(300)[..3], &[0x59, 0x01, 0x2c]);
    assert_eq!(m(300).len(), 303);
}

#[test]
fn delegate_params_match_tuple_encoding() {
    let code = some_cid();
    for (input, readonly) in [(vec![], false), (vec![1u8, 2, 3], true), (vec![5u8; 40], false)] {
        let p = pending(CallKind::DelegateCall, 0, input.clone());
        let req = delegate_call_send(&p, readonly, code.to_bytes(), NativeAddress::Id(1));
        let expected =
            fvm_ipld_encoding::to_vec(&(code, fvm_ipld_encoding::BytesSer(&input), readonly))
                .unwrap();
        assert_eq!(req.params, expected);
    }
}
