//! The host ledger environment, modeled as a capability object.
//!
//! The handler never touches storage itself: every effect goes through a
//! [`HostContext`], which exposes exactly the two primitives the handler
//! needs and, at the specification level, records the calls made through it.
//! That call trace is what the handler's contract (and the laws about it) are
//! stated over.  [`HostModel`] is an in-memory host implementation, so the
//! trace claims can be exercised by ordinary tests.

use vstd::prelude::*;

verus! {

/// One call into the host environment, as recorded in a host's trace.
pub enum HostCall {
    /// The handler asked for the transaction's out-of-band attachment.
    FetchAttachment,
    /// The handler asked the host to replace the validity predicate of the
    /// account identified by `addr` with the bytecode `code`.
    UpdateValidityPredicate { addr: Seq<u8>, code: Seq<u8> },
}

/// The capability object standing for the host ledger environment.
///
/// `calls` is the trace of primitives invoked so far; `attachment` is the
/// out-of-band policy bytecode the host associates with the current
/// transaction, if any; `accepts_update` says which updates the host's own
/// validation lets through.  The two exec methods append to the trace and
/// change nothing else, so a caller's contract can account for every host
/// effect.
pub trait HostContext: Sized {
    /// The host calls made so far, oldest first.
    spec fn calls(&self) -> Seq<HostCall>;

    /// The out-of-band attachment of the current transaction.
    spec fn attachment(&self) -> Option<Seq<u8>>;

    /// Whether the host's own validation accepts this update.
    spec fn accepts_update(&self, addr: Seq<u8>, code: Seq<u8>) -> bool;

    /// Retrieves the transaction's out-of-band attachment, reporting `None`
    /// when the host cannot supply it.
    fn get_tx_extra(&mut self) -> (r: Option<Vec<u8>>)
        ensures
            final(self).calls() == old(self).calls().push(HostCall::FetchAttachment),
            final(self).attachment() == old(self).attachment(),
            forall|a: Seq<u8>, c: Seq<u8>|
                final(self).accepts_update(a, c) == old(self).accepts_update(a, c),
            match r {
                Option::Some(code) => old(self).attachment() == Option::Some(code@),
                Option::None => old(self).attachment() is None,
            },
    ;

    /// Asks the host to replace the validity predicate of the account
    /// identified by `addr` with the bytecode `code`.  Returns whether the
    /// host accepted the update; on `false` no mutation occurred.
    fn update_validity_predicate(&mut self, addr: &Vec<u8>, code: Vec<u8>) -> (r: bool)
        ensures
            final(self).calls() == old(self).calls().push(
                HostCall::UpdateValidityPredicate { addr: addr@, code: code@ },
            ),
            final(self).attachment() == old(self).attachment(),
            forall|a: Seq<u8>, c: Seq<u8>|
                final(self).accepts_update(a, c) == old(self).accepts_update(a, c),
            r == old(self).accepts_update(addr@, code@),
    ;
}

/// An exec-level record of one host call, kept by [`HostModel`].
#[derive(Debug, PartialEq, Eq, Clone)]
pub enum LoggedCall {
    FetchAttachment,
    UpdateValidityPredicate { addr: Vec<u8>, code: Vec<u8> },
}

impl View for LoggedCall {
    type V = HostCall;

    open spec fn view(&self) -> HostCall {
        match self {
            LoggedCall::FetchAttachment => HostCall::FetchAttachment,
            LoggedCall::UpdateValidityPredicate { addr, code } => {
                HostCall::UpdateValidityPredicate { addr: addr@, code: code@ }
            },
        }
    }
}

/// An in-memory host environment.
///
/// It holds the attachment of the current transaction, a switch that decides
/// whether the update primitive accepts or rejects, and the log of every call
/// made through it.  Tests drive the handler against it and inspect the log.
pub struct HostModel {
    /// The out-of-band attachment, or `None` when the host cannot supply it.
    pub attachment: Option<Vec<u8>>,
    /// When set, the update primitive rejects every update.
    pub reject_updates: bool,
    /// Every call made through this host, oldest first.
    pub log: Vec<LoggedCall>,
}

impl HostModel {
    /// A fresh host with the given attachment and acceptance switch, and an
    /// empty call log.
    pub fn new(attachment: Option<Vec<u8>>, reject_updates: bool) -> (r: HostModel)
        ensures
            r.calls() == Seq::<HostCall>::empty(),
            r.attachment == attachment,
            r.reject_updates == reject_updates,
    {
        let r = HostModel { attachment, reject_updates, log: Vec::new() };
        proof {
            assert(r.calls() =~= Seq::<HostCall>::empty());
        }
        r
    }
}

/// Copies a byte vector.
fn copy_bytes(bytes: &Vec<u8>) -> (r: Vec<u8>)
    ensures
        r@ == bytes@,
{
    let mut out: Vec<u8> = Vec::new();
    let mut i: usize = 0;
    while i < bytes.len()
        invariant
            i <= bytes@.len(),
            out@ == bytes@.subrange(0, i as int),
        decreases bytes@.len() - i,
    {
        let b = bytes[i];
        out.push(b);
        proof {
            assert(out@ =~= bytes@.subrange(0, i as int + 1));
        }
        i = i + 1;
    }
    proof {
        assert(out@ =~= bytes@);
    }
    out
}

impl HostContext for HostModel {
    open spec fn calls(&self) -> Seq<HostCall> {
        self.log@.map(|i: int, c: LoggedCall| c@)
    }

    open spec fn attachment(&self) -> Option<Seq<u8>> {
        match self.attachment {
            Option::None => Option::None,
            Option::Some(bytes) => Option::Some(bytes@),
        }
    }

    open spec fn accepts_update(&self, addr: Seq<u8>, code: Seq<u8>) -> bool {
        !self.reject_updates
    }

    fn get_tx_extra(&mut self) -> (r: Option<Vec<u8>>) {
        self.log.push(LoggedCall::FetchAttachment);
        proof {
            assert(self.calls() =~= old(self).calls().push(HostCall::FetchAttachment));
        }
        match &self.attachment {
            Option::None => Option::None,
            Option::Some(bytes) => Option::Some(copy_bytes(bytes)),
        }
    }

    fn update_validity_predicate(&mut self, addr: &Vec<u8>, code: Vec<u8>) -> (r: bool) {
        let addr_copy = copy_bytes(addr);
        let ghost code_view = code@;
        self.log.push(LoggedCall::UpdateValidityPredicate { addr: addr_copy, code });
        proof {
            assert(self.calls() =~= old(self).calls().push(
                HostCall::UpdateValidityPredicate { addr: addr@, code: code_view },
            ));
        }
        !self.reject_updates
    }
}

} // verus!
