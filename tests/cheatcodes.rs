use fvm_shared::address::Address;
use kythera::abi::derive_method_num;
use kythera::cheatcodes::{
    decode_cheatcode, route_send, ActorAddress, Cheatcode, CheatcodeError, SendRoute,
    CHAIN_ID_NUM, CHEATCODES_ACTOR_ID, EPOCH_NUM, FEE_NUM, LOG_NUM, PRANK_NUM, TRICK_NUM,
    WARP_NUM,
};
use kythera::context::{MessageContext, NetworkContext, Override, OverrideContext, TokenAmount};

fn cbor<T: serde::Serialize>(v: &T) -> Vec<u8> {
    fvm_ipld_encoding::to_vec(v).unwrap()
}

#[test]
fn test_cheatcodes_number() {
    assert_eq!(WARP_NUM, derive_method_num("Warp").unwrap());
    assert_eq!(EPOCH_NUM, derive_method_num("Epoch").unwrap());
    assert_eq!(FEE_NUM, derive_method_num("Fee").unwrap());
    assert_eq!(CHAIN_ID_NUM, derive_method_num("ChainId").unwrap());
    assert_eq!(PRANK_NUM, derive_method_num("Prank").unwrap());
    assert_eq!(TRICK_NUM, derive_method_num("Trick").unwrap());
    assert_eq!(LOG_NUM, derive_method_num("Log").unwrap());
}

#[test]
fn selectors_are_stable_and_distinct() {
    let names = ["Warp", "Epoch", "Fee", "ChainId", "Prank", "Trick", "Log"];
    let first: Vec<u64> = names.iter().map(|n| derive_method_num(n).unwrap()).collect();
    let second: Vec<u64> = names.iter().map(|n| derive_method_num(n).unwrap()).collect();
    assert_eq!(first, second);
    for i in 0..first.len() {
        for j in (i + 1)..first.len() {
            assert_ne!(first[i], first[j]);
        }
    }
    assert_eq!(first[0], 112632689);
}

#[test]
fn warp_epoch_fee_chain_id_set_their_fields() {
    let mut ctx = OverrideContext::new();
    ctx.handle_cheatcode(WARP_NUM, Some(&cbor(&1000u64))).unwrap();
    ctx.handle_cheatcode(EPOCH_NUM, Some(&cbor(&-5i64))).unwrap();
    ctx.handle_cheatcode(FEE_NUM, Some(&cbor(&(7u64, 9u64)))).unwrap();
    ctx.handle_cheatcode(CHAIN_ID_NUM, Some(&cbor(&1312u64))).unwrap();
    ctx.handle_cheatcode(LOG_NUM, None).unwrap();
    assert_eq!(ctx.timestamp, Some(1000));
    assert_eq!(ctx.epoch, Some(-5));
    assert_eq!(ctx.base_fee, Some(TokenAmount { lo: 7, hi: 9 }));
    assert_eq!(ctx.chain_id, Some(1312));
    assert_eq!(ctx.caller, None);
    assert_eq!(ctx.origin, None);
}

#[test]
fn prank_and_trick_take_id_addresses() {
    let mut ctx = OverrideContext::new();
    ctx.handle_cheatcode(PRANK_NUM, Some(&cbor(&Address::new_id(200))))
        .unwrap();
    ctx.handle_cheatcode(TRICK_NUM, Some(&cbor(&Address::new_id(300))))
        .unwrap();
    assert_eq!(ctx.caller, Some(200));
    assert_eq!(ctx.origin, Some(300));
}

#[test]
fn cheatcode_errors() {
    let mut ctx = OverrideContext::new();
    assert_eq!(
        ctx.handle_cheatcode(WARP_NUM, None),
        Err(CheatcodeError::MissingParameters { selector: WARP_NUM })
    );
    assert_eq!(
        ctx.handle_cheatcode(WARP_NUM, Some(&cbor(&"text"))),
        Err(CheatcodeError::Undecodable { selector: WARP_NUM })
    );
    let actor_address = Address::new_actor(b"someone");
    assert_eq!(
        ctx.handle_cheatcode(PRANK_NUM, Some(&cbor(&actor_address))),
        Err(CheatcodeError::NotAnIdAddress { selector: PRANK_NUM })
    );
    assert_eq!(
        ctx.handle_cheatcode(42, Some(&cbor(&1u64))),
        Err(CheatcodeError::Unknown { selector: 42 })
    );
    assert_eq!(ctx, OverrideContext::new());
    assert_eq!(
        CheatcodeError::MissingParameters { selector: WARP_NUM }.message(),
        "No parameters provided for Warp cheatcode"
    );
    assert_eq!(
        CheatcodeError::Undecodable { selector: EPOCH_NUM }.message(),
        "Could not deserialize parameters for Epoch cheatcode"
    );
    assert_eq!(
        CheatcodeError::NotAnIdAddress { selector: TRICK_NUM }.message(),
        "Address parameter for Trick should have a valid ActorID"
    );
    assert_eq!(
        CheatcodeError::Unknown { selector: 1 }.message(),
        "Call to unknown cheatcode"
    );
}

#[test]
fn decode_reads_each_cheatcode() {
    assert_eq!(
        decode_cheatcode(WARP_NUM, Some(&cbor(&77u64))),
        Ok(Cheatcode::Warp(77))
    );
    assert_eq!(
        decode_cheatcode(FEE_NUM, Some(&cbor(&(1u64, 2u64)))),
        Ok(Cheatcode::Fee(TokenAmount { lo: 1, hi: 2 }))
    );
    assert_eq!(
        decode_cheatcode(TRICK_NUM, Some(&cbor(&Address::new_id(5)))),
        Ok(Cheatcode::Trick(5))
    );
    assert_eq!(decode_cheatcode(LOG_NUM, None), Ok(Cheatcode::Log));
}

#[test]
fn prank_is_one_shot() {
    let mut ctx = OverrideContext::new();
    let params = cbor(&Address::new_id(200));
    let r = route_send(
        &mut ctx,
        100,
        ActorAddress::Id(CHEATCODES_ACTOR_ID),
        PRANK_NUM,
        Some(&params),
    );
    assert_eq!(r, Ok(SendRoute::Intercepted));
    let first = route_send(&mut ctx, 100, ActorAddress::Id(103), 7, None);
    assert_eq!(first, Ok(SendRoute::Forward { from: 200 }));
    let second = route_send(&mut ctx, 100, ActorAddress::Id(103), 7, None);
    assert_eq!(second, Ok(SendRoute::Forward { from: 100 }));
}

#[test]
fn sends_without_prank_keep_their_caller() {
    let mut ctx = OverrideContext::new();
    let r = route_send(&mut ctx, 101, ActorAddress::Secp256k1, 3, None);
    assert_eq!(r, Ok(SendRoute::Forward { from: 101 }));
    let bad = route_send(
        &mut ctx,
        101,
        ActorAddress::Id(CHEATCODES_ACTOR_ID),
        PRANK_NUM,
        None,
    );
    assert_eq!(
        bad,
        Err(CheatcodeError::MissingParameters { selector: PRANK_NUM })
    );
}

#[test]
fn context_override_is_field_wise() {
    let nc = NetworkContext {
        epoch: 10,
        timestamp: 20,
        base_fee: TokenAmount { lo: 100, hi: 0 },
        chain_id: 314,
        network_version: 18,
    };
    let mut ctx = OverrideContext::new();
    assert_eq!(nc.override_with_context(&ctx), nc);
    ctx.timestamp = Some(99);
    ctx.chain_id = Some(1312);
    let patched = nc.override_with_context(&ctx);
    assert_eq!(patched.timestamp, 99);
    assert_eq!(patched.chain_id, 1312);
    assert_eq!(patched.epoch, 10);
    assert_eq!(patched.base_fee, TokenAmount { lo: 100, hi: 0 });
    assert_eq!(patched.network_version, 18);

    let mc = MessageContext {
        origin: 1,
        nonce: 2,
        caller: 3,
        receiver: 4,
        method_number: 5,
        value_received: TokenAmount::default(),
        gas_premium: TokenAmount::default(),
        flags: 0,
    };
    ctx.origin = Some(77);
    let patched = mc.override_with_context(&ctx);
    assert_eq!(patched.origin, 77);
    assert_eq!(patched.caller, 3);
}
