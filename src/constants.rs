//! Protocol constants shared by a validator client and its beacon node, and the
//! compatibility check between a local and a remote copy of them.
use vstd::prelude::*;

verus! {

/// The network-defining parameters that a validator client and a beacon node must agree on.
#[derive(Clone, Debug)]
pub struct ProtocolConstants {
    /// Name of the spec variant (for example `"mainnet"`): the identity of the network.
    pub spec_constants: String,
    /// The slot at which the chain starts.
    pub genesis_slot: u64,
    /// Duration of one slot, in milliseconds.
    pub milliseconds_per_slot: u64,
}

impl ProtocolConstants {
    /// Spec-level copy of the constants: the identity as characters, and the two integers.
    pub open spec fn view(&self) -> (Seq<char>, u64, u64) {
        (self.spec_constants@, self.genesis_slot, self.milliseconds_per_slot)
    }

    pub fn new(spec_constants: String, genesis_slot: u64, milliseconds_per_slot: u64) -> (r: Self)
        ensures
            r.spec_constants@ == spec_constants@,
            r.genesis_slot == genesis_slot,
            r.milliseconds_per_slot == milliseconds_per_slot,
    {
        ProtocolConstants { spec_constants, genesis_slot, milliseconds_per_slot }
    }

    /// A copy with the same identity and integers.
    pub fn duplicate(&self) -> (r: Self)
        ensures
            r@ == self@,
    {
        ProtocolConstants {
            spec_constants: self.spec_constants.clone(),
            genesis_slot: self.genesis_slot,
            milliseconds_per_slot: self.milliseconds_per_slot,
        }
    }
}

/// The message of a failed compatibility check: the remote identity, then the local one.
pub open spec fn incompatible_spec_message(remote: Seq<char>, local: Seq<char>) -> Seq<char> {
    "Beacon node is using an incompatible spec. Got "@ + remote + ", expected "@ + local
}

/// Whether two copies of the constants describe the same network.
pub open spec fn compatible(local: ProtocolConstants, remote: ProtocolConstants) -> bool {
    local.spec_constants@ == remote.spec_constants@
}

/// Compares the identity of the local constants with the remote ones. On a match the
/// remote constants are adopted whole; otherwise the error names both identities.
pub fn validate_compatibility(local: &ProtocolConstants, remote: ProtocolConstants) -> (r: Result<
    ProtocolConstants,
    String,
>)
    ensures
        r is Ok <==> compatible(*local, remote),
        r matches Ok(c) ==> c@ == remote@,
        r matches Err(e) ==> e@ == incompatible_spec_message(remote.spec_constants@, local.spec_constants@),
{
    if local.spec_constants == remote.spec_constants {
        Ok(remote)
    } else {
        let mut msg = String::from_str("Beacon node is using an incompatible spec. Got ");
        msg.append(remote.spec_constants.as_str());
        msg.append(", expected ");
        msg.append(local.spec_constants.as_str());
        proof {
            reveal_strlit("Beacon node is using an incompatible spec. Got ");
            reveal_strlit(", expected ");
        }
        Err(msg)
    }
}

} // verus!
