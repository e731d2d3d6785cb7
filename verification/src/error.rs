//! Protocol-level errors.

use vstd::prelude::*;
use vstd::string::StringExecFns;

verus! {

/// Errors raised by the protocol's checks.
#[derive(Clone, Debug, PartialEq, Eq)]
pub enum ProtocolError {
    /// A check without a more specific kind failed.
    Generic(String),
    /// A seal was used twice.
    SealReplay(String),
    /// A signature did not verify.
    SignatureVerificationFailed(String),
    /// An inclusion proof did not verify.
    InclusionProofFailed(String),
    /// Finality requirements were not met.
    FinalityNotReached(String),
    /// A value could not be encoded.
    SerializationError(String),
    /// A value could not be decoded.
    Deserialization(String),
    /// Input data was malformed.
    InvalidData(String),
    /// A network request failed.
    NetworkError(String),
    /// RPC providers did not reach a quorum.
    RpcQuorumFailed(String),
}

/// The text of a protocol error.
pub open spec fn protocol_error_text(e: ProtocolError) -> Seq<char> {
    match e {
        ProtocolError::Generic(m) => m@,
        ProtocolError::SealReplay(m) => "Seal replay detected: "@ + m@,
        ProtocolError::SignatureVerificationFailed(m) => "Signature verification failed: "@ + m@,
        ProtocolError::InclusionProofFailed(m) => "Inclusion proof verification failed: "@ + m@,
        ProtocolError::FinalityNotReached(m) => "Finality not reached: "@ + m@,
        ProtocolError::SerializationError(m) => "Serialization error: "@ + m@,
        ProtocolError::Deserialization(m) => "Deserialization error: "@ + m@,
        ProtocolError::InvalidData(m) => "Invalid data: "@ + m@,
        ProtocolError::NetworkError(m) => "Network error: "@ + m@,
        ProtocolError::RpcQuorumFailed(m) => "RPC quorum failed: "@ + m@,
    }
}

impl ProtocolError {
    /// The text of the error.
    pub fn to_text(&self) -> (s: String)
        ensures
            s@ == protocol_error_text(*self),
    {
        let (prefix, m) = match self {
            ProtocolError::Generic(m) => ("", m),
            ProtocolError::SealReplay(m) => ("Seal replay detected: ", m),
            ProtocolError::SignatureVerificationFailed(m) => ("Signature verification failed: ", m),
            ProtocolError::InclusionProofFailed(m) => ("Inclusion proof verification failed: ", m),
            ProtocolError::FinalityNotReached(m) => ("Finality not reached: ", m),
            ProtocolError::SerializationError(m) => ("Serialization error: ", m),
            ProtocolError::Deserialization(m) => ("Deserialization error: ", m),
            ProtocolError::InvalidData(m) => ("Invalid data: ", m),
            ProtocolError::NetworkError(m) => ("Network error: ", m),
            ProtocolError::RpcQuorumFailed(m) => ("RPC quorum failed: ", m),
        };
        proof {
            reveal_strlit("");
        }
        let mut s = String::from_str(prefix);
        s.append(m.as_str());
        proof {
            assert(""@ =~= Seq::<char>::empty());
            if let ProtocolError::Generic(_) = *self {
                assert(s@ =~= m@);
            }
        }
        s
    }
}

} // verus!
