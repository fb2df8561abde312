//! The transaction entry point: decode the authenticated envelope, fetch the
//! new policy bytecode from the transaction attachment, and delegate the
//! mutation to the host's policy-update primitive.
//!
//! The contract of [`apply_tx`] pins down both exits of the handler: the
//! outcome it returns for every envelope, attachment and host disposition,
//! and — through [`invocation_trace`] — the exact host calls it makes on the
//! way.  The proof functions at the end state the laws of the handler over
//! that model.

use vstd::prelude::*;

use crate::codec::decode_update_request;
use crate::codec::spec_decode;
use crate::envelope::AuthenticatedEnvelope;
use crate::envelope::TxError;
use crate::host::HostCall;
use crate::host::HostContext;

verus! {

/// Steps one and two of the handler: what the envelope's payload yields.
/// Either the decoded address and opaque tail, or the error that rejects the
/// transaction before any host call.
pub open spec fn spec_extract(data: Option<Seq<u8>>) -> Result<(Seq<u8>, Seq<u8>), TxError> {
    match data {
        Option::None => Result::Err(TxError::MissingPayload),
        Option::Some(bytes) => match spec_decode(bytes) {
            Result::Ok(parts) => Result::Ok(parts),
            Result::Err(reason) => Result::Err(TxError::DecodeError(reason)),
        },
    }
}

/// The host calls one invocation of the handler appends to the host's trace,
/// given the envelope payload and the attachment the host holds.  Nothing is
/// called before the payload decodes; the update primitive is reached only
/// once the attachment arrived.
pub open spec fn invocation_trace(data: Option<Seq<u8>>, attachment: Option<Seq<u8>>) -> Seq<
    HostCall,
> {
    match spec_extract(data) {
        Result::Err(_) => Seq::empty(),
        Result::Ok(parts) => match attachment {
            Option::None => seq![HostCall::FetchAttachment],
            Option::Some(code) => seq![
                HostCall::FetchAttachment,
                HostCall::UpdateValidityPredicate { addr: parts.0, code },
            ],
        },
    }
}

/// The outcome one invocation of the handler returns, given the envelope
/// payload, the attachment the host holds, and whether the host accepts the
/// update that would be issued.
pub open spec fn invocation_outcome(
    data: Option<Seq<u8>>,
    attachment: Option<Seq<u8>>,
    accepted: bool,
) -> Result<(), TxError> {
    match spec_extract(data) {
        Result::Err(e) => Result::Err(e),
        Result::Ok(parts) => match attachment {
            Option::None => Result::Err(TxError::AttachmentUnavailable),
            Option::Some(code) => if accepted {
                Result::Ok(())
            } else {
                Result::Err(TxError::HostUpdateFailed)
            },
        },
    }
}

/// Applies an update-validity-predicate transaction.
///
/// Reads the envelope's payload, decodes it as an update request, retrieves
/// the new policy bytecode from the transaction's out-of-band attachment, and
/// asks the host to associate that bytecode with the decoded account.  Every
/// failure is terminal and reported to the caller; the host's trace grows by
/// exactly [`invocation_trace`], so no call is made before its inputs have
/// been validated.
pub fn apply_tx<H: HostContext>(ctx: &mut H, envelope: &AuthenticatedEnvelope) -> (r: Result<
    (),
    TxError,
>)
    ensures
        final(ctx).calls() == old(ctx).calls() + invocation_trace(
            envelope@,
            old(ctx).attachment(),
        ),
        final(ctx).attachment() == old(ctx).attachment(),
        forall|a: Seq<u8>, c: Seq<u8>|
            final(ctx).accepts_update(a, c) == old(ctx).accepts_update(a, c),
        match spec_extract(envelope@) {
            Result::Err(e) => r == Result::<(), TxError>::Err(e),
            Result::Ok(parts) => match old(ctx).attachment() {
                Option::None => r == Result::<(), TxError>::Err(TxError::AttachmentUnavailable),
                Option::Some(code) => r == (if old(ctx).accepts_update(parts.0, code) {
                    Result::<(), TxError>::Ok(())
                } else {
                    Result::<(), TxError>::Err(TxError::HostUpdateFailed)
                }),
            },
        },
{
    let data = match &envelope.data {
        Option::None => {
            proof {
                assert(old(ctx).calls() + invocation_trace(envelope@, old(ctx).attachment())
                    =~= old(ctx).calls());
            }
            return Result::Err(TxError::MissingPayload);
        },
        Option::Some(data) => data,
    };
    let req = match decode_update_request(data) {
        Result::Ok(req) => req,
        Result::Err(reason) => {
            proof {
                assert(old(ctx).calls() + invocation_trace(envelope@, old(ctx).attachment())
                    =~= old(ctx).calls());
            }
            return Result::Err(TxError::DecodeError(reason));
        },
    };
    let code = match ctx.get_tx_extra() {
        Option::Some(code) => code,
        Option::None => {
            proof {
                assert(ctx.calls() =~= old(ctx).calls() + invocation_trace(
                    envelope@,
                    old(ctx).attachment(),
                ));
            }
            return Result::Err(TxError::AttachmentUnavailable);
        },
    };
    let ghost code_view = code@;
    let accepted = ctx.update_validity_predicate(&req.addr, code);
    proof {
        assert(ctx.calls() =~= old(ctx).calls() + invocation_trace(
            envelope@,
            old(ctx).attachment(),
        ));
    }
    if accepted {
        Result::Ok(())
    } else {
        Result::Err(TxError::HostUpdateFailed)
    }
}

/// How many calls of a trace reach the host's update primitive.
pub open spec fn update_count(trace: Seq<HostCall>) -> nat
    decreases trace.len(),
{
    if trace.len() == 0 {
        0
    } else {
        (match trace[0] {
            HostCall::UpdateValidityPredicate { .. } => 1 as nat,
            HostCall::FetchAttachment => 0 as nat,
        }) + update_count(trace.subrange(1, trace.len() as int))
    }
}

/// Update calls counted over back-to-back traces add up.
pub proof fn lemma_update_count_concat(a: Seq<HostCall>, b: Seq<HostCall>)
    ensures
        update_count(a + b) == update_count(a) + update_count(b),
    decreases a.len(),
{
    if a.len() == 0 {
        assert(a + b =~= b);
    } else {
        assert((a + b)[0] == a[0]);
        assert((a + b).subrange(1, (a + b).len() as int) =~= a.subrange(1, a.len() as int) + b);
        lemma_update_count_concat(a.subrange(1, a.len() as int), b);
    }
}

/// A well-formed envelope whose payload decodes and whose attachment is
/// present leads to exactly one update call, carrying the decoded address and
/// the attachment's bytes; when the host accepts it, the handler succeeds.
pub proof fn lemma_success_updates_once(data: Seq<u8>, code: Seq<u8>)
    requires
        spec_decode(data) is Ok,
    ensures
        ({
            let trace = invocation_trace(Option::Some(data), Option::Some(code));
            &&& trace.len() == 2
            &&& trace[0] == HostCall::FetchAttachment
            &&& trace[1] == (HostCall::UpdateValidityPredicate {
                addr: spec_decode(data)->Ok_0.0,
                code,
            })
            &&& update_count(trace) == 1
        }),
        invocation_outcome(Option::Some(data), Option::Some(code), true) == Result::<
            (),
            TxError,
        >::Ok(()),
{
    let trace = invocation_trace(Option::Some(data), Option::Some(code));
    let tail = trace.subrange(1, 2);
    assert(tail[0] == trace[1]);
    assert(tail.subrange(1, 1) =~= Seq::<HostCall>::empty());
    assert(update_count(tail.subrange(1, 1)) == 0);
    assert(update_count(tail) == 1);
}

/// An envelope with absent payload is rejected as `MissingPayload` and no
/// host call is made, whatever attachment the host holds and however it would
/// have judged an update.
pub proof fn lemma_missing_payload_no_calls(attachment: Option<Seq<u8>>, accepted: bool)
    ensures
        invocation_trace(Option::None, attachment) == Seq::<HostCall>::empty(),
        invocation_outcome(Option::None, attachment, accepted) == Result::<(), TxError>::Err(
            TxError::MissingPayload,
        ),
{
}

/// A payload that fails to decode is rejected as `DecodeError`, carrying the
/// reason the bytes do not conform, and no host call is made.
pub proof fn lemma_decode_failure_no_calls(
    data: Seq<u8>,
    attachment: Option<Seq<u8>>,
    accepted: bool,
)
    requires
        spec_decode(data) is Err,
    ensures
        invocation_trace(Option::Some(data), attachment) == Seq::<HostCall>::empty(),
        invocation_outcome(Option::Some(data), attachment, accepted) == Result::<(), TxError>::Err(
            TxError::DecodeError(spec_decode(data)->Err_0),
        ),
{
}

/// When the host cannot supply the attachment, the handler reports
/// `AttachmentUnavailable` and never reaches the update primitive.
pub proof fn lemma_attachment_unavailable_no_update(data: Seq<u8>, accepted: bool)
    requires
        spec_decode(data) is Ok,
    ensures
        invocation_trace(Option::Some(data), Option::None) == seq![HostCall::FetchAttachment],
        update_count(invocation_trace(Option::Some(data), Option::None)) == 0,
        invocation_outcome(Option::Some(data), Option::None, accepted) == Result::<(), TxError>::Err(
            TxError::AttachmentUnavailable,
        ),
{
    let trace = invocation_trace(Option::Some(data), Option::None);
    assert(trace.subrange(1, 1) =~= Seq::<HostCall>::empty());
    assert(update_count(trace.subrange(1, 1)) == 0);
}

/// When the host primitive itself rejects the update, the handler reports
/// exactly `HostUpdateFailed`, and the single update call is not retried.
pub proof fn lemma_host_failure_propagated(data: Seq<u8>, code: Seq<u8>)
    requires
        spec_decode(data) is Ok,
    ensures
        invocation_outcome(Option::Some(data), Option::Some(code), false) == Result::<
            (),
            TxError,
        >::Err(TxError::HostUpdateFailed),
        update_count(invocation_trace(Option::Some(data), Option::Some(code))) == 1,
{
    lemma_success_updates_once(data, code);
}

/// No idempotence is provided: invoking the handler twice on the same
/// well-formed envelope with the same attachment appends two update calls to
/// the host's trace; the second invocation is not suppressed.
pub proof fn lemma_no_idempotence(data: Option<Seq<u8>>, code: Seq<u8>)
    requires
        spec_extract(data) is Ok,
    ensures
        update_count(
            invocation_trace(data, Option::Some(code)) + invocation_trace(
                data,
                Option::Some(code),
            ),
        ) == 2,
{
    let trace = invocation_trace(data, Option::Some(code));
    match data {
        Option::Some(bytes) => {
            lemma_success_updates_once(bytes, code);
            lemma_update_count_concat(trace, trace);
        },
        Option::None => {},
    }
}

} // verus!
