//! WebAssembly actors, before and after deployment.

use crate::abi::Abi;
use crate::context::ActorID;
use vstd::prelude::*;

verus! {

/// A WebAssembly actor: a name, its bytecode and its interface.
#[derive(Clone, Debug, PartialEq, Eq, PartialOrd, Ord, Hash)]
pub struct WasmActor {
    name: String,
    bytecode: Vec<u8>,
    abi: Abi,
}

impl WasmActor {
    pub closed spec fn spec_name(&self) -> Seq<char> {
        self.name@
    }

    pub closed spec fn spec_code(&self) -> Seq<u8> {
        self.bytecode@
    }

    pub closed spec fn spec_abi(&self) -> Abi {
        self.abi
    }

    /// Create a new WebAssembly actor.
    pub fn new(name: String, bytecode: Vec<u8>, abi: Abi) -> (r: WasmActor)
        ensures
            r.spec_name() == name@,
            r.spec_code() == bytecode@,
            r.spec_abi() == abi,
    {
        WasmActor { name, bytecode, abi }
    }

    /// Get the actor's name.
    pub fn name(&self) -> (r: &str)
        ensures
            r@ == self.spec_name(),
    {
        self.name.as_str()
    }

    /// Get the actor's bytecode.
    pub fn code(&self) -> (r: &[u8])
        ensures
            r@ == self.spec_code(),
    {
        self.bytecode.as_slice()
    }

    /// Get the actor's interface.
    pub fn abi(&self) -> (r: &Abi)
        ensures
            *r == self.spec_abi(),
    {
        &self.abi
    }

    /// Whether `o` has the same name, bytecode and interface.
    pub open spec fn equiv(self, o: WasmActor) -> bool {
        &&& self.spec_name() == o.spec_name()
        &&& self.spec_code() == o.spec_code()
        &&& self.spec_abi().equiv(o.spec_abi())
    }

    /// A copy of the actor.
    pub fn clone_actor(&self) -> (r: WasmActor)
        ensures
            r.equiv(*self),
    {
        WasmActor { name: self.name.clone(), bytecode: self.bytecode.clone(), abi: self.abi.clone_abi() }
    }

    /// The actor once deployed at the id `address`.
    pub fn deploy(self, address: ActorID) -> (r: DeployedActor)
        ensures
            r.spec_name() == self.spec_name(),
            r.spec_code() == self.spec_code(),
            r.spec_abi() == self.spec_abi(),
            r.spec_address() == address,
    {
        DeployedActor { name: self.name, bytecode: self.bytecode, abi: self.abi, address }
    }
}

/// An actor that has been deployed at an actor id.
#[derive(Clone, Debug, PartialEq, Eq, PartialOrd, Ord, Hash)]
pub struct DeployedActor {
    name: String,
    bytecode: Vec<u8>,
    abi: Abi,
    address: ActorID,
}

impl DeployedActor {
    pub closed spec fn spec_name(&self) -> Seq<char> {
        self.name@
    }

    pub closed spec fn spec_code(&self) -> Seq<u8> {
        self.bytecode@
    }

    pub closed spec fn spec_abi(&self) -> Abi {
        self.abi
    }

    pub closed spec fn spec_address(&self) -> ActorID {
        self.address
    }

    /// Get the actor's name.
    pub fn name(&self) -> (r: &str)
        ensures
            r@ == self.spec_name(),
    {
        self.name.as_str()
    }

    /// Get the actor's bytecode.
    pub fn code(&self) -> (r: &[u8])
        ensures
            r@ == self.spec_code(),
    {
        self.bytecode.as_slice()
    }

    /// Get the actor's interface.
    pub fn abi(&self) -> (r: &Abi)
        ensures
            *r == self.spec_abi(),
    {
        &self.abi
    }

    /// Get the actor id at which the actor is deployed.
    pub fn address(&self) -> (r: ActorID)
        ensures
            r == self.spec_address(),
    {
        self.address
    }
}

} // verus!
