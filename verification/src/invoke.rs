//! The dynamic invoker model: the request one forwarding macro issues, the
//! process-wide cache of loaded artifacts, and the interpretation of a call's
//! outcome.
//!
//! Loading a dynamic library and calling into it is the host's job; this
//! module decides what to load, which symbol to call with which payload, and
//! what each outcome means. Payloads cross the load boundary as reparsable
//! token text, never as an in-memory token value.

use vstd::prelude::*;

use crate::metadata::MacroKind;

verus! {

/// How a call into a loaded artifact failed.
#[derive(Debug, PartialEq, Eq)]
pub enum InvocationError {
    /// The requested symbol is absent from the artifact.
    SymbolNotFound,
    /// The called code panicked; the message is carried, never the panic.
    CalleePanicked(String),
    /// The request's payload does not match its kind's calling convention.
    MalformedRequest,
}

/// The plan of one forwarding-macro expansion: the handle to call through,
/// whether the host must first load the artifact, and the symbol to call.
#[derive(Debug, PartialEq, Eq)]
pub struct CallPlan {
    pub handle_id: u64,
    pub must_load: bool,
    pub symbol_name: String,
}

/// What one invocation produced.
#[derive(Debug, PartialEq, Eq)]
pub enum InvocationResult {
    /// The serialized token text the callee returned.
    Produced(String),
    Failed(InvocationError),
}

/// One request against a built artifact.
#[derive(Debug, PartialEq, Eq)]
pub struct InvocationRequest {
    pub artifact_path: String,
    pub symbol_name: String,
    pub kind: MacroKind,
    /// Serialized token arguments, one text per argument.
    pub payload: Vec<String>,
}

/// How many serialized token arguments each macro kind passes: one for bang
/// and derive macros, two (parameters, then item) for attribute macros.
pub open spec fn payload_arity(kind: MacroKind) -> nat {
    match kind {
        MacroKind::Bang => 1,
        MacroKind::Derive => 1,
        MacroKind::Attribute => 2,
    }
}

impl InvocationRequest {
    /// The payload length matches the kind's calling convention.
    pub open spec fn wf(self) -> bool {
        self.payload@.len() == payload_arity(self.kind)
    }
}

/// Decides `InvocationRequest::wf`.
pub fn check_request(req: &InvocationRequest) -> (b: bool)
    ensures
        b == req.wf(),
{
    let expected: usize = match req.kind {
        MacroKind::Bang => 1,
        MacroKind::Derive => 1,
        MacroKind::Attribute => 2,
    };
    req.payload.len() == expected
}

/// What the host reports back from one call into a loaded artifact.
#[derive(Debug, PartialEq, Eq)]
pub enum RawCallOutcome {
    /// The symbol was absent.
    MissingSymbol,
    /// The callee returned this serialized token text.
    Returned(String),
    /// The callee panicked; the host caught it at the boundary and reports
    /// the message.
    Panicked(String),
}

/// Interprets a call outcome: a returned text is the produced expansion, a
/// missing symbol and a caught panic each map to their error, so no failure
/// is ever dropped and no panic propagates.
pub fn interpret_call_outcome(outcome: RawCallOutcome) -> (r: InvocationResult)
    ensures
        match outcome {
            RawCallOutcome::MissingSymbol => r == InvocationResult::Failed(
                InvocationError::SymbolNotFound,
            ),
            RawCallOutcome::Returned(t) => r == InvocationResult::Produced(t),
            RawCallOutcome::Panicked(m) => r == InvocationResult::Failed(
                InvocationError::CalleePanicked(m),
            ),
        },
{
    match outcome {
        RawCallOutcome::MissingSymbol => InvocationResult::Failed(
            InvocationError::SymbolNotFound,
        ),
        RawCallOutcome::Returned(t) => InvocationResult::Produced(t),
        RawCallOutcome::Panicked(m) => InvocationResult::Failed(
            InvocationError::CalleePanicked(m),
        ),
    }
}

/// One loaded artifact: its path and the host's opaque handle number.
pub struct HandleEntry {
    pub path: String,
    pub handle_id: u64,
}

/// The process-wide cache of loaded artifacts. Entries are only ever added:
/// a loaded library stays valid for the whole process life, so nothing is
/// ever evicted.
pub struct HandleCache {
    pub entries: Vec<HandleEntry>,
}

impl HandleCache {
    /// Whether an artifact path is already loaded.
    pub open spec fn spec_contains(self, path: Seq<char>) -> bool {
        exists|i: int| 0 <= i < self.entries@.len() && (#[trigger] self.entries@[i]).path@ == path
    }

    /// The handle recorded for a loaded path.
    pub open spec fn spec_handle_of(self, path: Seq<char>) -> u64 {
        self.entries@[choose|i: int|
            0 <= i < self.entries@.len() && (#[trigger] self.entries@[i]).path@ == path].handle_id
    }

    /// At most one entry per path.
    pub open spec fn wf(self) -> bool {
        forall|i: int, j: int|
            0 <= i < j < self.entries@.len() ==> (#[trigger] self.entries@[i]).path@ != (
            #[trigger] self.entries@[j]).path@
    }

    pub fn new() -> (r: HandleCache)
        ensures
            r.wf(),
            r.entries@.len() == 0,
    {
        HandleCache { entries: Vec::new() }
    }

    /// Looks a path up, or records `new_id` as its handle if it is not
    /// loaded yet. Returns the handle to use and whether the caller must
    /// actually load the library: the same path is never loaded twice.
    pub fn lookup_or_register(&mut self, path: &str, new_id: u64) -> (r: (u64, bool))
        requires
            old(self).wf(),
        ensures
            final(self).wf(),
            r.1 == !old(self).spec_contains(path@),
            !r.1 ==> final(self).entries@ == old(self).entries@
                && r.0 == old(self).spec_handle_of(path@),
            r.1 ==> final(self).entries@.len() == old(self).entries@.len() + 1
                && final(self).entries@.last().path@ == path@
                && final(self).entries@.last().handle_id == r.0
                && r.0 == new_id && final(self).entries@.drop_last() == old(self).entries@,
            final(self).spec_contains(path@),
            final(self).spec_handle_of(path@) == r.0,
    {
        let needle = String::from_str(path);
        let n = self.entries.len();
        let mut i: usize = 0;
        while i < n
            invariant
                0 <= i <= n,
                n == self.entries@.len(),
                old(self).wf(),
                self == old(self),
                needle@ == path@,
                forall|k: int| 0 <= k < i ==> (#[trigger] self.entries@[k]).path@ != path@,
            decreases n - i,
        {
            if self.entries[i].path.eq(&needle) {
                let id = self.entries[i].handle_id;
                proof {
                    assert(0 <= i < self.entries@.len() && (self.entries@[i as int]).path@
                        == path@);
                    let w = choose|k: int|
                        0 <= k < self.entries@.len() && (#[trigger] self.entries@[k]).path@
                            == path@;
                    if w < i as int {
                        assert((self.entries@[w]).path@ != (self.entries@[i as int]).path@);
                    }
                    if w > i as int {
                        assert((self.entries@[i as int]).path@ != (self.entries@[w]).path@);
                    }
                    assert(w == i as int);
                }
                return (id, false);
            }
            i = i + 1;
        }
        assert(!old(self).spec_contains(path@));
        self.entries.push(HandleEntry { path: String::from_str(path), handle_id: new_id });
        proof {
            let last = self.entries@.len() - 1;
            assert((self.entries@[last]).path@ == path@);
            assert forall|p: int, q: int|
                0 <= p < q < self.entries@.len() implies (#[trigger] self.entries@[p]).path@ != (
            #[trigger] self.entries@[q]).path@ by {
                if q == last {
                    assert(self.entries@[p] == old(self).entries@[p]);
                }
            }
            let w = choose|k: int|
                0 <= k < self.entries@.len() && (#[trigger] self.entries@[k]).path@ == path@;
            assert(self.entries@.drop_last() =~= old(self).entries@);
            if w != last {
                assert(self.entries@[w] == old(self).entries@[w]);
            }
        }
        (new_id, true)
    }
}

} // verus!
