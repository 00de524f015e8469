//! The collision-safe transfer engine's decision logic. The engine never
//! performs filesystem work itself: a caller probes the filesystem, feeds
//! each observation in, and carries out exactly the decision returned. That
//! keeps every decision — when to copy, when a destination already represents
//! the content, when to disambiguate — verified.
//!
//! Collision handling: a destination holding a file of the same byte length
//! is treated as already representing this content (an intentional no-op, not
//! a content match); a destination of a different length is a distinct asset
//! that must be preserved, so the engine retries against a fresh candidate
//! name, formed by appending a dot and the source's own extension, a bounded
//! number of times before giving up.

use vstd::prelude::*;
use crate::errors::MigrationError;

verus! {

/// How many disambiguation retries the engine attempts before it reports a
/// copy error.
pub const MAX_TRANSFER_ATTEMPTS: u8 = 8;

/// What a caller observed at the current candidate destination path:
/// nothing, or a file of the given byte length.
#[derive(Clone, Copy, Debug, PartialEq, Eq, Structural)]
pub enum DestProbe {
    Absent,
    Present(u64),
}

/// The engine's decision for one probe. `DoCopy`: copy the source to the
/// current candidate. `AlreadyPresent`: the candidate already represents this
/// content; succeed without copying. `Retry`: the candidate holds a distinct
/// asset; probe the next candidate. `GiveUp`: disambiguation did not
/// converge; report a copy error.
#[derive(Clone, Copy, Debug, PartialEq, Eq, Structural)]
pub enum TransferDecision {
    DoCopy,
    AlreadyPresent,
    Retry,
    GiveUp,
}

/// The candidate destination after `n` disambiguation steps: the original
/// destination with `n` copies of `"." + extension` appended.
pub open spec fn nth_candidate(dest: Seq<char>, ext: Seq<char>, n: nat) -> Seq<char>
    decreases n,
{
    if n == 0 {
        dest
    } else {
        nth_candidate(dest, ext, (n - 1) as nat) + "."@ + ext
    }
}

/// One in-progress transfer: the destination currently under consideration
/// and how many disambiguation steps produced it.
pub struct TransferState {
    pub original_dest: String,
    pub extension: String,
    pub candidate: String,
    pub attempt: u8,
}

impl TransferState {
    /// The candidate is the original destination disambiguated `attempt`
    /// times, and the attempt count has not passed the bound.
    pub open spec fn wf(self) -> bool {
        self.attempt <= MAX_TRANSFER_ATTEMPTS && self.candidate@ == nth_candidate(
            self.original_dest@,
            self.extension@,
            self.attempt as nat,
        )
    }

    /// The decision for a probe of the current candidate, given the source's
    /// byte length.
    pub open spec fn spec_decide(self, probe: DestProbe, src_len: u64) -> TransferDecision {
        match probe {
            DestProbe::Absent => TransferDecision::DoCopy,
            DestProbe::Present(dest_len) => if dest_len == src_len {
                TransferDecision::AlreadyPresent
            } else if self.attempt < MAX_TRANSFER_ATTEMPTS {
                TransferDecision::Retry
            } else {
                TransferDecision::GiveUp
            },
        }
    }

    /// Begins a transfer towards `dest`, whose source file has extension
    /// `ext`, given whether a probe saw the source file. A missing source is
    /// a copy error before anything else happens.
    pub fn begin(src_exists: bool, dest: String, ext: String) -> (r: Result<
        Self,
        MigrationError,
    >)
        ensures
            src_exists <==> r is Ok,
            !src_exists ==> r == Err::<TransferState, MigrationError>(MigrationError::CopyError),
            r is Ok ==> r->Ok_0.wf() && r->Ok_0.attempt == 0 && r->Ok_0.candidate@ == dest@
                && r->Ok_0.original_dest@ == dest@ && r->Ok_0.extension@ == ext@,
    {
        if !src_exists {
            return Err(MigrationError::CopyError);
        }
        let candidate = dest.clone();
        Ok(TransferState { original_dest: dest, extension: ext, candidate, attempt: 0 })
    }

    /// Takes one probe of the current candidate and returns the decision.
    /// Only a `Retry` changes the state: it advances to the next candidate
    /// name.
    pub fn step(&mut self, probe: DestProbe, src_len: u64) -> (d: TransferDecision)
        requires
            old(self).wf(),
        ensures
            final(self).wf(),
            d == old(self).spec_decide(probe, src_len),
            final(self).original_dest == old(self).original_dest,
            final(self).extension == old(self).extension,
            d == TransferDecision::Retry ==> final(self).attempt == old(self).attempt + 1
                && final(self).candidate@ == old(self).candidate@ + "."@ + old(self).extension@,
            d != TransferDecision::Retry ==> *final(self) == *old(self),
    {
        match probe {
            DestProbe::Absent => TransferDecision::DoCopy,
            DestProbe::Present(dest_len) => {
                if dest_len == src_len {
                    TransferDecision::AlreadyPresent
                } else if self.attempt < MAX_TRANSFER_ATTEMPTS {
                    let next = self.candidate.clone().concat(".").concat(self.extension.as_str());
                    self.candidate = next;
                    self.attempt = self.attempt + 1;
                    TransferDecision::Retry
                } else {
                    TransferDecision::GiveUp
                }
            },
        }
    }
}

/// Same-length short-circuit: when the destination already holds a file of
/// the source's byte length, the engine succeeds without copying.
pub proof fn lemma_same_length_short_circuit(st: TransferState, src_len: u64)
    ensures
        st.spec_decide(DestProbe::Present(src_len), src_len) == TransferDecision::AlreadyPresent,
{
}

/// No silent overwrite: when the destination holds a file of a different
/// byte length, the engine never copies over it and never reports it as the
/// same content; it either moves to a fresh candidate or gives up.
pub proof fn lemma_no_silent_overwrite(st: TransferState, dest_len: u64, src_len: u64)
    requires
        dest_len != src_len,
    ensures
        st.spec_decide(DestProbe::Present(dest_len), src_len) == TransferDecision::Retry
            || st.spec_decide(DestProbe::Present(dest_len), src_len) == TransferDecision::GiveUp,
{
}

/// A copy is only ever directed at a path where the probe saw nothing.
pub proof fn lemma_copy_only_into_absent(st: TransferState, probe: DestProbe, src_len: u64)
    requires
        st.spec_decide(probe, src_len) == TransferDecision::DoCopy,
    ensures
        probe == DestProbe::Absent,
{
}

/// Disambiguation is bounded: a retry is only ever decided while the attempt
/// count is below the bound, so a transfer probes at most
/// `MAX_TRANSFER_ATTEMPTS + 1` candidates before it succeeds or gives up.
pub proof fn lemma_disambiguation_bounded(st: TransferState, probe: DestProbe, src_len: u64)
    requires
        st.spec_decide(probe, src_len) == TransferDecision::Retry,
    ensures
        st.attempt < MAX_TRANSFER_ATTEMPTS,
{
}

/// Each disambiguation step strictly lengthens the candidate name.
proof fn lemma_candidate_len_grows(dest: Seq<char>, ext: Seq<char>, m: nat, n: nat)
    requires
        m < n,
    ensures
        nth_candidate(dest, ext, m).len() < nth_candidate(dest, ext, n).len(),
    decreases n,
{
    reveal_strlit(".");
    if n == m + 1 {
    } else {
        lemma_candidate_len_grows(dest, ext, m, (n - 1) as nat);
    }
}

/// Disambiguation never revisits a name: candidates of distinct steps are
/// distinct paths, so a retry can never target a file an earlier step saw.
pub proof fn lemma_candidates_distinct(dest: Seq<char>, ext: Seq<char>, m: nat, n: nat)
    requires
        m != n,
    ensures
        nth_candidate(dest, ext, m) != nth_candidate(dest, ext, n),
{
    if m < n {
        lemma_candidate_len_grows(dest, ext, m, n);
    } else {
        lemma_candidate_len_grows(dest, ext, n, m);
    }
}

} // verus!
