//! Cheatcodes: calls to a reserved actor that change the facts a test sees
//! instead of reaching any actor, and the routing of outbound sends.

use crate::context::{ActorID, OverrideContext, TokenAmount};
use fvm_shared::address::Payload;
use vstd::prelude::*;

verus! {

/// The actor id reserved for cheatcodes; no user actor is given it.
pub const CHEATCODES_ACTOR_ID: u64 = 98;

/// Selector of `Warp(timestamp: u64)`.
pub const WARP_NUM: u64 = 112632689;

/// Selector of `Epoch(epoch: i64)`.
pub const EPOCH_NUM: u64 = 1015545011;

/// Selector of `Fee(lo: u64, hi: u64)`.
pub const FEE_NUM: u64 = 1307676284;

/// Selector of `ChainId(chain_id: u64)`.
pub const CHAIN_ID_NUM: u64 = 2832802136;

/// Selector of `Prank(new_caller: address)`.
pub const PRANK_NUM: u64 = 3950310035;

/// Selector of `Trick(new_origin: address)`.
pub const TRICK_NUM: u64 = 4270775027;

/// Selector of `Log(level, message)`.
pub const LOG_NUM: u64 = 340034372;

/// The seven cheatcode selectors are pairwise distinct, so each selector
/// names one cheatcode.
pub proof fn lemma_selectors_distinct()
    ensures
        seq![WARP_NUM, EPOCH_NUM, FEE_NUM, CHAIN_ID_NUM, PRANK_NUM, TRICK_NUM, LOG_NUM].no_duplicates(),
{
    let s = seq![WARP_NUM, EPOCH_NUM, FEE_NUM, CHAIN_ID_NUM, PRANK_NUM, TRICK_NUM, LOG_NUM];
    assert forall|i: int, j: int| 0 <= i < s.len() && 0 <= j < s.len() && i != j implies s[i] != s[j] by {
    }
}

/// An address, as far as cheatcodes read it: the id of an id address, or the
/// protocol of another address.
#[derive(Clone, Copy, Debug, PartialEq, Eq, Structural)]
pub enum ActorAddress {
    Id(ActorID),
    Secp256k1,
    Actor,
    Bls,
    Delegated,
}

/// The IPLD CBOR decoding of `bytes` as a `u64`.
pub uninterp spec fn cbor_u64(bytes: Seq<u8>) -> Option<u64>;

/// The IPLD CBOR decoding of `bytes` as an `i64`.
pub uninterp spec fn cbor_i64(bytes: Seq<u8>) -> Option<i64>;

/// The IPLD CBOR decoding of `bytes` as a pair of `u64`.
pub uninterp spec fn cbor_u64_pair(bytes: Seq<u8>) -> Option<(u64, u64)>;

/// The IPLD CBOR decoding of `bytes` as an address.
pub uninterp spec fn cbor_address(bytes: Seq<u8>) -> Option<ActorAddress>;

/// Relies on `fvm_ipld_encoding::from_slice`, decoding a `u64`.
#[verifier::external_body]
fn decode_u64(bytes: &[u8]) -> (r: Option<u64>)
    ensures
        r == cbor_u64(bytes@),
{
    fvm_ipld_encoding::from_slice::<u64>(bytes).ok()
}

/// Relies on `fvm_ipld_encoding::from_slice`, decoding an `i64`.
#[verifier::external_body]
fn decode_i64(bytes: &[u8]) -> (r: Option<i64>)
    ensures
        r == cbor_i64(bytes@),
{
    fvm_ipld_encoding::from_slice::<i64>(bytes).ok()
}

/// Relies on `fvm_ipld_encoding::from_slice`, decoding a pair of `u64`.
#[verifier::external_body]
fn decode_u64_pair(bytes: &[u8]) -> (r: Option<(u64, u64)>)
    ensures
        r == cbor_u64_pair(bytes@),
{
    fvm_ipld_encoding::from_slice::<(u64, u64)>(bytes).ok()
}

/// Relies on `fvm_ipld_encoding::from_slice`, decoding an
/// `fvm_shared::address::Address`, of which the payload's protocol is kept.
#[verifier::external_body]
fn decode_address(bytes: &[u8]) -> (r: Option<ActorAddress>)
    ensures
        r == cbor_address(bytes@),
{
    let a: fvm_shared::address::Address = fvm_ipld_encoding::from_slice(bytes).ok()?;
    Some(
        match a.payload() {
            Payload::ID(id) => ActorAddress::Id(*id),
            Payload::Secp256k1(_) => ActorAddress::Secp256k1,
            Payload::Actor(_) => ActorAddress::Actor,
            Payload::BLS(_) => ActorAddress::Bls,
            Payload::Delegated(_) => ActorAddress::Delegated,
        },
    )
}

/// A decoded cheatcode call.
#[derive(Clone, Copy, Debug, PartialEq, Eq, Structural)]
pub enum Cheatcode {
    Warp(u64),
    Epoch(i64),
    Fee(TokenAmount),
    ChainId(u64),
    Prank(ActorID),
    Trick(ActorID),
    Log,
}

/// Why a cheatcode call aborts its message. Each carries the selector called.
#[derive(Clone, Copy, Debug, PartialEq, Eq, Structural)]
pub enum CheatcodeError {
    /// The selector is none of the cheatcodes.
    Unknown { selector: u64 },
    /// The call carried no parameters.
    MissingParameters { selector: u64 },
    /// The parameters do not decode to the cheatcode's argument.
    Undecodable { selector: u64 },
    /// The address argument is not an id address.
    NotAnIdAddress { selector: u64 },
}

/// The name of the cheatcode with selector `selector`.
pub open spec fn cheatcode_name_of(selector: u64) -> Seq<char> {
    if selector == WARP_NUM {
        "Warp"@
    } else if selector == EPOCH_NUM {
        "Epoch"@
    } else if selector == FEE_NUM {
        "Fee"@
    } else if selector == CHAIN_ID_NUM {
        "ChainId"@
    } else if selector == PRANK_NUM {
        "Prank"@
    } else if selector == TRICK_NUM {
        "Trick"@
    } else {
        "Log"@
    }
}

fn cheatcode_name(selector: u64) -> (r: &'static str)
    ensures
        r@ == cheatcode_name_of(selector),
{
    if selector == WARP_NUM {
        "Warp"
    } else if selector == EPOCH_NUM {
        "Epoch"
    } else if selector == FEE_NUM {
        "Fee"
    } else if selector == CHAIN_ID_NUM {
        "ChainId"
    } else if selector == PRANK_NUM {
        "Prank"
    } else if selector == TRICK_NUM {
        "Trick"
    } else {
        "Log"
    }
}

impl CheatcodeError {
    /// A sentence that describes the error.
    pub fn message(&self) -> (r: String)
        ensures
            r@ == match *self {
                CheatcodeError::Unknown { .. } => "Call to unknown cheatcode"@,
                CheatcodeError::MissingParameters { selector } => "No parameters provided for "@
                    + cheatcode_name_of(selector) + " cheatcode"@,
                CheatcodeError::Undecodable { selector } => "Could not deserialize parameters for "@
                    + cheatcode_name_of(selector) + " cheatcode"@,
                CheatcodeError::NotAnIdAddress { selector } => "Address parameter for "@
                    + cheatcode_name_of(selector) + " should have a valid ActorID"@,
            },
    {
        match self {
            CheatcodeError::Unknown { .. } => String::from_str("Call to unknown cheatcode"),
            CheatcodeError::MissingParameters { selector } => {
                let mut m = String::from_str("No parameters provided for ");
                m.append(cheatcode_name(*selector));
                m.append(" cheatcode");
                m
            },
            CheatcodeError::Undecodable { selector } => {
                let mut m = String::from_str("Could not deserialize parameters for ");
                m.append(cheatcode_name(*selector));
                m.append(" cheatcode");
                m
            },
            CheatcodeError::NotAnIdAddress { selector } => {
                let mut m = String::from_str("Address parameter for ");
                m.append(cheatcode_name(*selector));
                m.append(" should have a valid ActorID");
                m
            },
        }
    }
}

/// Read the argument of a cheatcode with selector `sel` from `params` by `dec`.
pub open spec fn with_params<T>(
    sel: u64,
    params: Option<Seq<u8>>,
    dec: spec_fn(Seq<u8>) -> Option<T>,
) -> Result<T, CheatcodeError> {
    match params {
        None => Err(CheatcodeError::MissingParameters { selector: sel }),
        Some(b) => match dec(b) {
            Some(v) => Ok(v),
            None => Err(CheatcodeError::Undecodable { selector: sel }),
        },
    }
}

/// The actor id that an address argument names, where it is an id address.
pub open spec fn id_argument(sel: u64, params: Option<Seq<u8>>) -> Result<ActorID, CheatcodeError> {
    match with_params(sel, params, |b: Seq<u8>| cbor_address(b)) {
        Err(e) => Err(e),
        Ok(ActorAddress::Id(id)) => Ok(id),
        Ok(_) => Err(CheatcodeError::NotAnIdAddress { selector: sel }),
    }
}

/// The cheatcode that a call with selector `sel` and parameters `params`
/// makes, or why it aborts.
pub open spec fn decoded(sel: u64, params: Option<Seq<u8>>) -> Result<Cheatcode, CheatcodeError> {
    if sel == WARP_NUM {
        match with_params(sel, params, |b: Seq<u8>| cbor_u64(b)) {
            Ok(v) => Ok(Cheatcode::Warp(v)),
            Err(e) => Err(e),
        }
    } else if sel == EPOCH_NUM {
        match with_params(sel, params, |b: Seq<u8>| cbor_i64(b)) {
            Ok(v) => Ok(Cheatcode::Epoch(v)),
            Err(e) => Err(e),
        }
    } else if sel == FEE_NUM {
        match with_params(sel, params, |b: Seq<u8>| cbor_u64_pair(b)) {
            Ok((lo, hi)) => Ok(Cheatcode::Fee(TokenAmount { lo, hi })),
            Err(e) => Err(e),
        }
    } else if sel == CHAIN_ID_NUM {
        match with_params(sel, params, |b: Seq<u8>| cbor_u64(b)) {
            Ok(v) => Ok(Cheatcode::ChainId(v)),
            Err(e) => Err(e),
        }
    } else if sel == PRANK_NUM {
        match id_argument(sel, params) {
            Ok(id) => Ok(Cheatcode::Prank(id)),
            Err(e) => Err(e),
        }
    } else if sel == TRICK_NUM {
        match id_argument(sel, params) {
            Ok(id) => Ok(Cheatcode::Trick(id)),
            Err(e) => Err(e),
        }
    } else if sel == LOG_NUM {
        Ok(Cheatcode::Log)
    } else {
        Err(CheatcodeError::Unknown { selector: sel })
    }
}

pub open spec fn opt_view(params: Option<&[u8]>) -> Option<Seq<u8>> {
    match params {
        Some(b) => Some(b@),
        None => None,
    }
}

fn address_argument(sel: u64, params: Option<&[u8]>) -> (r: Result<ActorID, CheatcodeError>)
    ensures
        r == id_argument(sel, opt_view(params)),
{
    match params {
        None => Err(CheatcodeError::MissingParameters { selector: sel }),
        Some(b) => match decode_address(b) {
            None => Err(CheatcodeError::Undecodable { selector: sel }),
            Some(ActorAddress::Id(id)) => Ok(id),
            Some(_) => Err(CheatcodeError::NotAnIdAddress { selector: sel }),
        },
    }
}

/// Decode the cheatcode that a call with selector `sel` and parameters
/// `params` makes.
pub fn decode_cheatcode(sel: u64, params: Option<&[u8]>) -> (r: Result<Cheatcode, CheatcodeError>)
    ensures
        r == decoded(sel, opt_view(params)),
{
    if sel == LOG_NUM {
        return Ok(Cheatcode::Log);
    }
    if sel != WARP_NUM && sel != EPOCH_NUM && sel != FEE_NUM && sel != CHAIN_ID_NUM
        && sel != PRANK_NUM && sel != TRICK_NUM {
        return Err(CheatcodeError::Unknown { selector: sel });
    }
    if sel == PRANK_NUM {
        return match address_argument(sel, params) {
            Ok(id) => Ok(Cheatcode::Prank(id)),
            Err(e) => Err(e),
        };
    }
    if sel == TRICK_NUM {
        return match address_argument(sel, params) {
            Ok(id) => Ok(Cheatcode::Trick(id)),
            Err(e) => Err(e),
        };
    }
    let b = match params {
        None => return Err(CheatcodeError::MissingParameters { selector: sel }),
        Some(b) => b,
    };
    if sel == WARP_NUM {
        match decode_u64(b) {
            Some(v) => Ok(Cheatcode::Warp(v)),
            None => Err(CheatcodeError::Undecodable { selector: sel }),
        }
    } else if sel == EPOCH_NUM {
        match decode_i64(b) {
            Some(v) => Ok(Cheatcode::Epoch(v)),
            None => Err(CheatcodeError::Undecodable { selector: sel }),
        }
    } else if sel == FEE_NUM {
        match decode_u64_pair(b) {
            Some((lo, hi)) => Ok(Cheatcode::Fee(TokenAmount { lo, hi })),
            None => Err(CheatcodeError::Undecodable { selector: sel }),
        }
    } else {
        match decode_u64(b) {
            Some(v) => Ok(Cheatcode::ChainId(v)),
            None => Err(CheatcodeError::Undecodable { selector: sel }),
        }
    }
}

impl OverrideContext {
    /// The context after the cheatcode `c`: it sets the one field that `c`
    /// forces; `Log` changes nothing.
    pub open spec fn applied(self, c: Cheatcode) -> OverrideContext {
        match c {
            Cheatcode::Warp(t) => OverrideContext { timestamp: Some(t), ..self },
            Cheatcode::Epoch(e) => OverrideContext { epoch: Some(e), ..self },
            Cheatcode::Fee(f) => OverrideContext { base_fee: Some(f), ..self },
            Cheatcode::ChainId(c) => OverrideContext { chain_id: Some(c), ..self },
            Cheatcode::Prank(id) => OverrideContext { caller: Some(id), ..self },
            Cheatcode::Trick(id) => OverrideContext { origin: Some(id), ..self },
            Cheatcode::Log => self,
        }
    }

    /// Apply a decoded cheatcode.
    pub fn apply(&mut self, c: Cheatcode)
        ensures
            *final(self) == old(self).applied(c),
    {
        match c {
            Cheatcode::Warp(t) => self.timestamp = Some(t),
            Cheatcode::Epoch(e) => self.epoch = Some(e),
            Cheatcode::Fee(f) => self.base_fee = Some(f),
            Cheatcode::ChainId(c) => self.chain_id = Some(c),
            Cheatcode::Prank(id) => self.caller = Some(id),
            Cheatcode::Trick(id) => self.origin = Some(id),
            Cheatcode::Log => {},
        }
    }

    /// Handle a call to the cheatcodes actor: decode it and apply it. On an
    /// error the context is left as it was and the message must abort.
    pub fn handle_cheatcode(&mut self, sel: u64, params: Option<&[u8]>) -> (r: Result<
        (),
        CheatcodeError,
    >)
        ensures
            match decoded(sel, opt_view(params)) {
                Ok(c) => r is Ok && *final(self) == old(self).applied(c),
                Err(e) => r == Err::<(), CheatcodeError>(e) && *final(self) == *old(self),
            },
    {
        let c = decode_cheatcode(sel, params)?;
        self.apply(c);
        Ok(())
    }
}

/// Where an outbound send goes.
#[derive(Clone, Copy, Debug, PartialEq, Eq, Structural)]
pub enum SendRoute {
    /// A cheatcode was handled; the send succeeds with no data and reaches no actor.
    Intercepted,
    /// The send goes on to the engine's own dispatch with this caller.
    Forward { from: ActorID },
}

/// Whether `to` is the cheatcodes actor.
pub open spec fn is_cheatcodes_actor(to: ActorAddress) -> bool {
    to == ActorAddress::Id(CHEATCODES_ACTOR_ID)
}

/// The context after a send and where the send goes, or why it aborts.
pub open spec fn routed(
    ctx: OverrideContext,
    from: ActorID,
    to: ActorAddress,
    sel: u64,
    params: Option<Seq<u8>>,
) -> (OverrideContext, Result<SendRoute, CheatcodeError>) {
    if is_cheatcodes_actor(to) {
        match decoded(sel, params) {
            Ok(c) => (ctx.applied(c), Ok(SendRoute::Intercepted)),
            Err(e) => (ctx, Err(e)),
        }
    } else {
        (
            OverrideContext { caller: None, ..ctx },
            Ok(SendRoute::Forward { from: or_caller(ctx.caller, from) }),
        )
    }
}

pub open spec fn or_caller(c: Option<ActorID>, from: ActorID) -> ActorID {
    match c {
        Some(id) => id,
        None => from,
    }
}

/// Route an outbound send from `from` to `to` with selector `sel`. A send to
/// the cheatcodes actor is handled here. Any other send is forwarded, with the
/// caller that a `Prank` forced if there is one, which this send consumes.
pub fn route_send(
    ctx: &mut OverrideContext,
    from: ActorID,
    to: ActorAddress,
    sel: u64,
    params: Option<&[u8]>,
) -> (r: Result<SendRoute, CheatcodeError>)
    ensures
        (*final(ctx), r) == routed(*old(ctx), from, to, sel, opt_view(params)),
{
    if to == ActorAddress::Id(CHEATCODES_ACTOR_ID) {
        ctx.handle_cheatcode(sel, params)?;
        Ok(SendRoute::Intercepted)
    } else {
        let caller = match ctx.caller {
            Some(id) => id,
            None => from,
        };
        ctx.caller = None;
        Ok(SendRoute::Forward { from: caller })
    }
}

/// A `Prank` forces the caller of the next send only: after a `Prank` with an
/// id, the first send to another actor goes out from that id and the second
/// one from its own caller.
pub proof fn lemma_prank_is_one_shot(
    ctx: OverrideContext,
    prank_from: ActorID,
    params: Seq<u8>,
    id: ActorID,
    from1: ActorID,
    to1: ActorAddress,
    sel1: u64,
    params_first: Option<Seq<u8>>,
    from2: ActorID,
    to2: ActorAddress,
    sel2: u64,
    params_second: Option<Seq<u8>>,
)
    requires
        cbor_address(params) == Some(ActorAddress::Id(id)),
        !is_cheatcodes_actor(to1),
        !is_cheatcodes_actor(to2),
    ensures
        ({
            let (c1, r0) = routed(ctx, prank_from, ActorAddress::Id(CHEATCODES_ACTOR_ID), PRANK_NUM, Some(params));
            let (c2, r1) = routed(c1, from1, to1, sel1, params_first);
            let (c3, r2) = routed(c2, from2, to2, sel2, params_second);
            &&& r0 == Ok::<SendRoute, CheatcodeError>(SendRoute::Intercepted)
            &&& r1 == Ok::<SendRoute, CheatcodeError>(SendRoute::Forward { from: id })
            &&& r2 == Ok::<SendRoute, CheatcodeError>(SendRoute::Forward { from: from2 })
        }),
{
}

} // verus!
