//! The extract, transcode and cache pipeline for one video member.
//!
//! `Resolve` is the decision core of resolving a member to playable media.
//! The embedding program performs the file and process work (probe the cache,
//! fetch the member's bytes, write the staged file, run the transcoder, move
//! the result into place) and reports each outcome back; the machine decides
//! what comes next and derives every path it hands out. Each step moves the
//! phase strictly forward, so no run performs a stage twice: in particular
//! the transcoder is invoked at most once per resolution, and a cache hit
//! finishes at once without touching the archive or the transcoder.
//!
//! The transcoder is always pointed at a working path distinct from the
//! final one, and promotion to the final path is requested only after a
//! successful exit: a failed transcode therefore never leaves a partial
//! file behind under the final path for a later cache-hit check to trust.
//!
//! `TranscodeGate` is the required per-key serialization of concurrent
//! resolutions: of all simultaneous callers for one base name, exactly the
//! first acquires the key and transcodes; the rest wait for its result.

use crate::pathname::{base_name, base_name_spec, join_under};
use crate::session::Session;
use vstd::prelude::*;
use vstd::string::*;

verus! {

/// How a resolution can fail, and at which stage.
#[derive(Clone, Copy, Debug, PartialEq, Eq, Structural)]
pub enum ResolveError {
    /// No archive is selected.
    NoActiveArchive,
    /// The member's raw bytes could not be read out of the archive.
    MemberUnavailable,
    /// The staged copy of the raw bytes could not be written.
    StageWriteFailed,
    /// The transcoder could not be launched, exited nonzero, or its result
    /// could not be moved into place.
    TranscodeFailed,
}

/// Where a resolution stands. Apart from the two terminal phases, each
/// phase names the one outside action whose outcome the machine awaits.
#[derive(Clone, Copy, Debug, PartialEq, Eq, Structural)]
pub enum ResolvePhase {
    /// Does the final artifact already exist?
    ProbeCache,
    /// Read the member's raw bytes out of the archive.
    FetchMember,
    /// Write the raw bytes to the staged path.
    StageWrite,
    /// Run the transcoder from the staged path to the working path.
    RunTranscoder,
    /// Move the working file to the final path.
    Promote,
    /// The final artifact is in place.
    Succeeded,
    /// The resolution failed; the failure says at which stage.
    Failed,
}

/// Where the staged raw bytes live: the base name under the cache root.
pub open spec fn staged_path_spec(member: Seq<char>, root: Seq<char>) -> Seq<char> {
    root + "/"@ + base_name_spec(member) + ".avi"@
}

/// Where the playable artifact lives once materialized.
pub open spec fn final_path_spec(member: Seq<char>, root: Seq<char>) -> Seq<char> {
    root + "/"@ + base_name_spec(member) + ".mp4"@
}

/// Where the transcoder writes before the result is moved into place.
pub open spec fn work_path_spec(member: Seq<char>, root: Seq<char>) -> Seq<char> {
    final_path_spec(member, root) + ".part"@
}

/// One resolution of a member name to playable media.
pub struct Resolve {
    member_name: String,
    cache_root: String,
    staged_path: String,
    work_path: String,
    final_path: String,
    phase: ResolvePhase,
    failure: Option<ResolveError>,
}

impl Resolve {
    /// The member being resolved.
    pub closed spec fn member(&self) -> Seq<char> {
        self.member_name@
    }

    /// The cache root every path is derived under.
    pub closed spec fn root(&self) -> Seq<char> {
        self.cache_root@
    }

    /// The current phase.
    pub closed spec fn phase(&self) -> ResolvePhase {
        self.phase
    }

    /// The failure recorded, exactly when the phase is `Failed`.
    pub closed spec fn failure(&self) -> Option<ResolveError> {
        self.failure
    }

    pub closed spec fn staged_view(&self) -> Seq<char> {
        self.staged_path@
    }

    pub closed spec fn work_view(&self) -> Seq<char> {
        self.work_path@
    }

    pub closed spec fn final_view(&self) -> Seq<char> {
        self.final_path@
    }

    /// Every path the machine hands out is the derivation the contracts
    /// name, and a failure is recorded exactly in the `Failed` phase.
    pub open spec fn wf(&self) -> bool {
        &&& self.staged_view() == staged_path_spec(self.member(), self.root())
        &&& self.work_view() == work_path_spec(self.member(), self.root())
        &&& self.final_view() == final_path_spec(self.member(), self.root())
        &&& (self.phase() is Failed <==> self.failure() is Some)
    }

    /// The phase, for the caller driving the machine.
    pub fn current_phase(&self) -> (p: ResolvePhase)
        ensures
            p == self.phase(),
    {
        self.phase
    }

    /// The member name whose bytes the `FetchMember` phase asks for.
    pub fn member_arg(&self) -> (s: &str)
        ensures
            s@ == self.member(),
    {
        self.member_name.as_str()
    }

    /// The path the cache probe and the promotion target point at.
    pub fn final_path_arg(&self) -> (s: &str)
        ensures
            s@ == self.final_view(),
    {
        self.final_path.as_str()
    }

    /// The path the raw bytes are staged at.
    pub fn staged_path_arg(&self) -> (s: &str)
        ensures
            s@ == self.staged_view(),
    {
        self.staged_path.as_str()
    }

    /// Input and output for the transcoder: the staged file in, the working
    /// path out. The working path is never the final path, so a failed
    /// transcode cannot leave a partial final artifact.
    pub fn transcoder_args(&self) -> (io: (String, String))
        requires
            self.wf(),
            self.phase() is RunTranscoder,
        ensures
            io.0@ == staged_path_spec(self.member(), self.root()),
            io.1@ == work_path_spec(self.member(), self.root()),
    {
        (self.staged_path.clone(), self.work_path.clone())
    }

    /// Source and destination of the final move into place.
    pub fn promote_args(&self) -> (mv: (String, String))
        requires
            self.wf(),
            self.phase() is Promote,
        ensures
            mv.0@ == work_path_spec(self.member(), self.root()),
            mv.1@ == final_path_spec(self.member(), self.root()),
    {
        (self.work_path.clone(), self.final_path.clone())
    }

    /// A cache hit finishes the resolution at once; otherwise the member's
    /// bytes are fetched next. This is the fast path that must not touch
    /// the archive or the transcoder.
    pub fn on_cache_probe(&mut self, present: bool)
        requires
            old(self).wf(),
            old(self).phase() is ProbeCache,
        ensures
            probe_post(*old(self), *final(self), present),
    {
        if present {
            self.phase = ResolvePhase::Succeeded;
        } else {
            self.phase = ResolvePhase::FetchMember;
        }
    }

    /// Whether the member's raw bytes came out of the archive.
    pub fn on_member_fetched(&mut self, fetched: bool)
        requires
            old(self).wf(),
            old(self).phase() is FetchMember,
        ensures
            fetch_post(*old(self), *final(self), fetched),
    {
        if fetched {
            self.phase = ResolvePhase::StageWrite;
        } else {
            self.phase = ResolvePhase::Failed;
            self.failure = Some(ResolveError::MemberUnavailable);
        }
    }

    /// Whether the raw bytes were written to the staged path, fully
    /// overwriting any previous partial content.
    pub fn on_stage_written(&mut self, written: bool)
        requires
            old(self).wf(),
            old(self).phase() is StageWrite,
        ensures
            stage_post(*old(self), *final(self), written),
    {
        if written {
            self.phase = ResolvePhase::RunTranscoder;
        } else {
            self.phase = ResolvePhase::Failed;
            self.failure = Some(ResolveError::StageWriteFailed);
        }
    }

    /// Whether the transcoder was launched and exited zero. Only a
    /// successful exit asks for the working file to be promoted.
    pub fn on_transcode_exit(&mut self, exited_zero: bool)
        requires
            old(self).wf(),
            old(self).phase() is RunTranscoder,
        ensures
            transcode_post(*old(self), *final(self), exited_zero),
    {
        if exited_zero {
            self.phase = ResolvePhase::Promote;
        } else {
            self.phase = ResolvePhase::Failed;
            self.failure = Some(ResolveError::TranscodeFailed);
        }
    }

    /// Whether the working file was moved to the final path.
    pub fn on_promoted(&mut self, moved: bool)
        requires
            old(self).wf(),
            old(self).phase() is Promote,
        ensures
            promote_post(*old(self), *final(self), moved),
    {
        if moved {
            self.phase = ResolvePhase::Succeeded;
        } else {
            self.phase = ResolvePhase::Failed;
            self.failure = Some(ResolveError::TranscodeFailed);
        }
    }

    /// The resolution's result: the final path on success, the recorded
    /// failure otherwise.
    pub fn take_result(self) -> (r: Result<String, ResolveError>)
        requires
            self.wf(),
            self.phase() is Succeeded || self.phase() is Failed,
        ensures
            self.phase() is Succeeded ==> (r matches Ok(p) && p@ == final_path_spec(
                self.member(),
                self.root(),
            )),
            self.phase() is Failed ==> (r matches Err(e) && Some(e) == self.failure()),
    {
        match self.failure {
            None => Ok(self.final_path),
            Some(e) => Err(e),
        }
    }
}

/// Both steps speak of one member and one cache root throughout.
pub open spec fn same_request(pre: Resolve, post: Resolve) -> bool {
    post.member() == pre.member() && post.root() == pre.root()
}

/// What the cache probe decides.
pub open spec fn probe_post(pre: Resolve, post: Resolve, present: bool) -> bool {
    &&& post.wf()
    &&& same_request(pre, post)
    &&& (present ==> post.phase() is Succeeded)
    &&& (!present ==> post.phase() is FetchMember)
}

/// What the member fetch decides.
pub open spec fn fetch_post(pre: Resolve, post: Resolve, fetched: bool) -> bool {
    &&& post.wf()
    &&& same_request(pre, post)
    &&& (fetched ==> post.phase() is StageWrite)
    &&& (!fetched ==> post.phase() is Failed && post.failure() == Some(
        ResolveError::MemberUnavailable,
    ))
}

/// What the stage write decides.
pub open spec fn stage_post(pre: Resolve, post: Resolve, written: bool) -> bool {
    &&& post.wf()
    &&& same_request(pre, post)
    &&& (written ==> post.phase() is RunTranscoder)
    &&& (!written ==> post.phase() is Failed && post.failure() == Some(
        ResolveError::StageWriteFailed,
    ))
}

/// What the transcoder's exit decides.
pub open spec fn transcode_post(pre: Resolve, post: Resolve, exited_zero: bool) -> bool {
    &&& post.wf()
    &&& same_request(pre, post)
    &&& (exited_zero ==> post.phase() is Promote)
    &&& (!exited_zero ==> post.phase() is Failed && post.failure() == Some(
        ResolveError::TranscodeFailed,
    ))
}

/// What the promotion decides.
pub open spec fn promote_post(pre: Resolve, post: Resolve, moved: bool) -> bool {
    &&& post.wf()
    &&& same_request(pre, post)
    &&& (moved ==> post.phase() is Succeeded)
    &&& (!moved ==> post.phase() is Failed && post.failure() == Some(
        ResolveError::TranscodeFailed,
    ))
}

/// Any one step of the machine.
pub open spec fn resolve_step(pre: Resolve, post: Resolve) -> bool {
    ||| (pre.phase() is ProbeCache && exists|b: bool| probe_post(pre, post, b))
    ||| (pre.phase() is FetchMember && exists|b: bool| fetch_post(pre, post, b))
    ||| (pre.phase() is StageWrite && exists|b: bool| stage_post(pre, post, b))
    ||| (pre.phase() is RunTranscoder && exists|b: bool| transcode_post(pre, post, b))
    ||| (pre.phase() is Promote && exists|b: bool| promote_post(pre, post, b))
}

/// How far along a phase is. The two terminal phases share the top rank.
pub open spec fn phase_rank(p: ResolvePhase) -> nat {
    match p {
        ResolvePhase::ProbeCache => 0,
        ResolvePhase::FetchMember => 1,
        ResolvePhase::StageWrite => 2,
        ResolvePhase::RunTranscoder => 3,
        ResolvePhase::Promote => 4,
        ResolvePhase::Succeeded => 5,
        ResolvePhase::Failed => 5,
    }
}

/// Law: every step moves the phase strictly forward. No phase repeats in a
/// run, so the transcoder — reachable only in the one `RunTranscoder`
/// phase, and there pointed at the working path — is invoked at most once
/// per resolution, and a machine that a cache probe has finished takes no
/// further step at all.
pub proof fn lemma_resolve_steps_advance(pre: Resolve, post: Resolve)
    requires
        resolve_step(pre, post),
    ensures
        phase_rank(post.phase()) > phase_rank(pre.phase()),
{
}

/// Law: resolving one member under one cache root always yields the same
/// final path, whichever of two resolutions produced it. A second call for
/// an already-materialized member therefore returns the path the first one
/// returned.
pub proof fn lemma_resolve_deterministic(a: Resolve, b: Resolve)
    requires
        a.wf(),
        b.wf(),
        a.member() == b.member(),
        a.root() == b.root(),
    ensures
        a.final_view() == b.final_view(),
        a.staged_view() == b.staged_view(),
        a.work_view() == b.work_view(),
{
}

/// Law: a second resolution of the member a finished one resolved, under
/// the same cache root, whose cache probe finds the artifact the first left
/// behind, finishes at once — no fetch, no stage, no transcode — and
/// returns the same final path as the first.
pub proof fn lemma_second_resolution_reuses(first: Resolve, pre: Resolve, post: Resolve)
    requires
        first.wf(),
        pre.wf(),
        pre.phase() is ProbeCache,
        first.member() == pre.member(),
        first.root() == pre.root(),
        probe_post(pre, post, true),
    ensures
        post.phase() is Succeeded,
        post.final_view() == first.final_view(),
{
}

/// Law: the path the transcoder writes to is never the final path, for any
/// member and any cache root. Together with promotion being requested only
/// after a zero exit, a failed transcode leaves nothing under the final
/// path.
pub proof fn lemma_work_path_distinct(member: Seq<char>, root: Seq<char>)
    ensures
        work_path_spec(member, root) != final_path_spec(member, root),
{
    reveal_strlit(".part");
    assert(work_path_spec(member, root).len() == final_path_spec(member, root).len() + 5);
}

/// Begins resolving `member` to playable media under `cache_root`: refused
/// outright when no archive is selected, and otherwise a machine at the
/// cache probe with every path derived from the member's base name.
pub fn start_resolve(session: &Session, member: &str, cache_root: &str) -> (r: Result<
    Resolve,
    ResolveError,
>)
    ensures
        session.path().len() == 0 ==> (r matches Err(e) && e is NoActiveArchive),
        session.path().len() > 0 ==> (r matches Ok(m) && m.wf() && m.phase() is ProbeCache
            && m.member() == member@ && m.root() == cache_root@ && m.failure() is None),
{
    if !session.has_active_archive() {
        return Err(ResolveError::NoActiveArchive);
    }
    let base = base_name(member);
    let staged = join_under(cache_root, base.as_str(), ".avi");
    let fin = join_under(cache_root, base.as_str(), ".mp4");
    let mut work = fin.clone();
    work.append(".part");
    Ok(
        Resolve {
            member_name: String::from_str(member),
            cache_root: String::from_str(cache_root),
            staged_path: staged,
            work_path: work,
            final_path: fin,
            phase: ResolvePhase::ProbeCache,
            failure: None,
        },
    )
}

/// The per-key gate serializing concurrent resolutions of one base name.
/// A caller that wins `acquire` performs the resolution and releases the
/// key afterwards; every caller that loses waits for, or reuses, the
/// winner's result instead of transcoding again.
pub struct TranscodeGate {
    in_flight: Vec<String>,
}

/// What acquiring `k` does: the caller wins exactly when the key was free,
/// the key is held afterwards either way, and no other key changes.
pub open spec fn acquire_post(
    pre: TranscodeGate,
    post: TranscodeGate,
    k: Seq<char>,
    won: bool,
) -> bool {
    &&& post.wf()
    &&& (won <==> !pre.holds_key(k))
    &&& post.holds_key(k)
    &&& forall|k2: Seq<char>| k2 != k ==> (post.holds_key(k2) <==> pre.holds_key(k2))
}

/// What releasing `k` does: the key is free afterwards and no other key
/// changes.
pub open spec fn release_post(pre: TranscodeGate, post: TranscodeGate, k: Seq<char>) -> bool {
    &&& post.wf()
    &&& !post.holds_key(k)
    &&& forall|k2: Seq<char>| k2 != k ==> (post.holds_key(k2) <==> pre.holds_key(k2))
}

impl TranscodeGate {
    /// The keys currently held.
    pub closed spec fn keys(&self) -> Seq<Seq<char>> {
        self.in_flight@.map_values(|s: String| s@)
    }

    /// Whether `k` is held.
    pub open spec fn holds_key(&self, k: Seq<char>) -> bool {
        self.keys().contains(k)
    }

    /// No key is held twice.
    pub open spec fn wf(&self) -> bool {
        forall|i: int, j: int|
            0 <= i < j < self.keys().len() ==> self.keys()[i] != self.keys()[j]
    }

    /// A fresh gate holds no key.
    pub fn new() -> (g: TranscodeGate)
        ensures
            g.wf(),
            forall|k: Seq<char>| !g.holds_key(k),
    {
        TranscodeGate { in_flight: Vec::new() }
    }

    /// Takes `key` if it is free; reports whether this caller won it.
    pub fn acquire(&mut self, key: &String) -> (won: bool)
        requires
            old(self).wf(),
        ensures
            acquire_post(*old(self), *final(self), key@, won),
    {
        let n = self.in_flight.len();
        let mut i: usize = 0;
        while i < n
            invariant
                i <= n,
                n == self.in_flight@.len(),
                *self == *old(self),
                old(self).wf(),
                forall|j: int| 0 <= j < i ==> self.keys()[j] != key@,
            decreases n - i,
        {
            if self.in_flight[i] == *key {
                proof {
                    assert(self.keys()[i as int] == key@);
                }
                return false;
            }
            i += 1;
        }
        proof {
            assert(forall|j: int| 0 <= j < self.keys().len() ==> self.keys()[j] != key@);
            assert(!self.holds_key(key@));
        }
        let ghost before = self.keys();
        self.in_flight.push(key.clone());
        proof {
            assert(self.keys() =~= before.push(key@));
            let post = self.keys();
            assert(post[before.len() as int] == key@);
            assert forall|k2: Seq<char>|
                k2 != key@ && post.contains(k2) implies before.contains(k2) by {
                let m = choose|m: int| 0 <= m < post.len() && post[m] == k2;
                assert(m < before.len());
                assert(before[m] == k2);
            }
            assert forall|k2: Seq<char>|
                k2 != key@ && before.contains(k2) implies post.contains(k2) by {
                let m = choose|m: int| 0 <= m < before.len() && before[m] == k2;
                assert(post[m] == k2);
            }
        }
        true
    }

    /// Frees `key`; freeing a key that is not held changes nothing.
    pub fn release(&mut self, key: &String)
        requires
            old(self).wf(),
        ensures
            release_post(*old(self), *final(self), key@),
    {
        let n = self.in_flight.len();
        let mut i: usize = 0;
        while i < n
            invariant
                i <= n,
                n == self.in_flight@.len(),
                *self == *old(self),
                old(self).wf(),
                forall|j: int| 0 <= j < i ==> self.keys()[j] != key@,
            decreases n - i,
        {
            if self.in_flight[i] == *key {
                let ghost before = self.keys();
                proof {
                    assert(before[i as int] == key@);
                }
                self.in_flight.remove(i);
                proof {
                    assert(self.keys() =~= before.remove(i as int));
                    assert forall|j: int|
                        0 <= j < self.keys().len() implies self.keys()[j] != key@ by {
                        if j < i {
                            assert(before[j] != key@);
                        } else {
                            assert(i < j + 1 < before.len());
                            assert(before[i as int] != before[j + 1]);
                            assert(before[j + 1] != key@);
                        }
                    }
                    assert forall|k2: Seq<char>|
                        k2 != key@ && old(self).holds_key(k2) implies self.holds_key(k2) by {
                        let m = choose|m: int| 0 <= m < before.len() && before[m] == k2;
                        if m < i {
                            assert(self.keys()[m] == k2);
                        } else {
                            assert(self.keys()[m - 1] == k2);
                        }
                    }
                    assert forall|k2: Seq<char>|
                        k2 != key@ && self.holds_key(k2) implies old(self).holds_key(k2) by {
                        let m = choose|m: int|
                            0 <= m < self.keys().len() && self.keys()[m] == k2;
                        if m < i {
                            assert(before[m] == k2);
                        } else {
                            assert(before[m + 1] == k2);
                        }
                    }
                }
                return ;
            }
            i += 1;
        }
        proof {
            assert(forall|j: int| 0 <= j < self.keys().len() ==> self.keys()[j] != key@);
            assert(!self.holds_key(key@));
        }
    }
}

/// Law: of two acquisitions of one key in a row, the second never wins —
/// so of any number of simultaneous resolutions of one member, exactly the
/// one that acquired the key first transcodes, and every later caller is
/// directed to the winner's result instead.
pub proof fn lemma_second_acquire_loses(
    g0: TranscodeGate,
    g1: TranscodeGate,
    g2: TranscodeGate,
    k: Seq<char>,
    won1: bool,
    won2: bool,
)
    requires
        acquire_post(g0, g1, k, won1),
        acquire_post(g1, g2, k, won2),
    ensures
        !won2,
{
}

} // verus!
