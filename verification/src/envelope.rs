//! Data model of the handler: the authenticated input envelope, the decoded
//! update request, and the error taxonomy.

use vstd::prelude::*;

verus! {

/// A transaction payload wrapper whose authenticity has already been verified
/// by the host before this handler runs.  If `data` is absent the request is
/// malformed and is rejected before any further processing.
pub struct AuthenticatedEnvelope {
    pub data: Option<Vec<u8>>,
}

impl View for AuthenticatedEnvelope {
    type V = Option<Seq<u8>>;

    open spec fn view(&self) -> Option<Seq<u8>> {
        match self.data {
            Option::None => Option::None,
            Option::Some(bytes) => Option::Some(bytes@),
        }
    }
}

/// The decoded update request: the identifier of the account whose validity
/// predicate is to be replaced, plus any trailing request fields, which are
/// opaque to this handler beyond identifying the target account.
#[derive(Clone, Debug, PartialEq, Eq)]
pub struct UpdateRequest {
    /// Encoded identifier of the target account.
    pub addr: Vec<u8>,
    /// Remaining request bytes, carried through without interpretation so the
    /// request type stays extensible.
    pub opaque: Vec<u8>,
}

/// Why a payload failed to decode as an [`UpdateRequest`].
#[derive(Clone, Copy, Debug, PartialEq, Eq, Structural)]
pub enum DecodeReason {
    /// The payload ended before the encoding was complete.
    UnexpectedEnd,
    /// The leading tag byte did not identify an update request.
    InvalidTag,
}

/// Every way an invocation of the handler can fail.  All are terminal: the
/// enclosing ledger treats any of them as "transaction rejected, no state
/// changes applied".
#[derive(Clone, Copy, Debug, PartialEq, Eq, Structural)]
pub enum TxError {
    /// The authenticated envelope carried no data.
    MissingPayload,
    /// The payload bytes did not conform to the request encoding.
    DecodeError(DecodeReason),
    /// The host could not supply the associated policy bytecode.
    AttachmentUnavailable,
    /// The host primitive itself rejected the update.
    HostUpdateFailed,
}

} // verus!
