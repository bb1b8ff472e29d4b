//! Facts of the virtual machine that a test may force, and how they patch
//! what the engine reports.

use vstd::prelude::*;

verus! {

/// Identifier of an actor.
pub type ActorID = u64;

/// A token amount as the engine hands it to actors: two 64-bit halves.
#[derive(Clone, Copy, Debug, PartialEq, Eq, Structural, Default)]
pub struct TokenAmount {
    pub lo: u64,
    pub hi: u64,
}

/// What the engine reports of the network to an executing actor.
#[derive(Clone, Copy, Debug, PartialEq, Eq, Structural)]
pub struct NetworkContext {
    pub epoch: i64,
    pub timestamp: u64,
    pub base_fee: TokenAmount,
    pub chain_id: u64,
    pub network_version: u32,
}

/// What the engine reports of the current message to an executing actor.
#[derive(Clone, Copy, Debug, PartialEq, Eq, Structural)]
pub struct MessageContext {
    pub origin: ActorID,
    pub nonce: u64,
    pub caller: ActorID,
    pub receiver: ActorID,
    pub method_number: u64,
    pub value_received: TokenAmount,
    pub gas_premium: TokenAmount,
    pub flags: u64,
}

/// The facts that a test has forced during one execution session. A field
/// that is `None` leaves the engine's own value in place. Every field but
/// `caller` stays set for the rest of the session once forced, `origin`
/// included; `caller` is consumed by the next outbound send.
#[derive(Clone, Copy, Debug, PartialEq, Eq, Structural, Default)]
pub struct OverrideContext {
    /// The chain id of the network.
    pub chain_id: Option<u64>,
    /// The current epoch.
    pub epoch: Option<i64>,
    /// The UNIX timestamp (in seconds) of the current tipset.
    pub timestamp: Option<u64>,
    /// The base fee in effect.
    pub base_fee: Option<TokenAmount>,
    /// The origin of the current call.
    pub origin: Option<ActorID>,
    /// The caller of the next outbound send; consumed by that send.
    pub caller: Option<ActorID>,
}

/// `o`'s value where it is set, `v` otherwise.
pub open spec fn or_engine<T>(o: Option<T>, v: T) -> T {
    match o {
        Some(x) => x,
        None => v,
    }
}

impl OverrideContext {
    /// A context that forces nothing.
    pub fn new() -> (r: OverrideContext)
        ensures
            r == OverrideContext::empty(),
    {
        OverrideContext {
            chain_id: None,
            epoch: None,
            timestamp: None,
            base_fee: None,
            origin: None,
            caller: None,
        }
    }

    pub open spec fn empty() -> OverrideContext {
        OverrideContext {
            chain_id: None,
            epoch: None,
            timestamp: None,
            base_fee: None,
            origin: None,
            caller: None,
        }
    }
}

/// A report of the engine that a context of type `S` can patch.
pub trait Override<S>: Sized {
    /// The report with the fields that `context` sets replaced.
    spec fn overridden(&self, context: &S) -> Self;

    /// Patch the report: each field that `context` sets replaces the engine's
    /// value; the others are kept.
    fn override_with_context(&self, context: &S) -> (r: Self)
        ensures
            r == self.overridden(context),
    ;
}

impl Override<OverrideContext> for NetworkContext {
    open spec fn overridden(&self, context: &OverrideContext) -> NetworkContext {
        NetworkContext {
            chain_id: or_engine(context.chain_id, self.chain_id),
            epoch: or_engine(context.epoch, self.epoch),
            timestamp: or_engine(context.timestamp, self.timestamp),
            base_fee: or_engine(context.base_fee, self.base_fee),
            ..*self
        }
    }

    fn override_with_context(&self, context: &OverrideContext) -> (r: NetworkContext) {
        NetworkContext {
            chain_id: match context.chain_id {
                Some(v) => v,
                None => self.chain_id,
            },
            epoch: match context.epoch {
                Some(v) => v,
                None => self.epoch,
            },
            timestamp: match context.timestamp {
                Some(v) => v,
                None => self.timestamp,
            },
            base_fee: match context.base_fee {
                Some(v) => v,
                None => self.base_fee,
            },
            ..*self
        }
    }
}

impl Override<OverrideContext> for MessageContext {
    open spec fn overridden(&self, context: &OverrideContext) -> MessageContext {
        MessageContext { origin: or_engine(context.origin, self.origin), ..*self }
    }

    fn override_with_context(&self, context: &OverrideContext) -> (r: MessageContext) {
        MessageContext {
            origin: match context.origin {
                Some(v) => v,
                None => self.origin,
            },
            ..*self
        }
    }
}

} // verus!
