//! Choosing the engine executable: the first candidate path that exists wins,
//! and when none exists the bare engine name is returned so the host can let
//! the operating system's executable search path resolve it.

use vstd::prelude::*;
use vstd::string::StringExecFns;

verus! {

/// A candidate location for the engine, paired with whether the host found a
/// file there.
pub struct Candidate {
    pub path: String,
    pub exists: bool,
}

/// The mathematical shape of a candidate: its path text and its existence.
pub struct CandidateView {
    pub path: Seq<char>,
    pub exists: bool,
}

impl View for Candidate {
    type V = CandidateView;

    open spec fn view(&self) -> CandidateView {
        CandidateView { path: self.path@, exists: self.exists }
    }
}

/// The views of a sequence of candidates.
pub open spec fn candidate_views(cands: Seq<Candidate>) -> Seq<CandidateView> {
    cands.map_values(|c: Candidate| c@)
}

/// The path of the first candidate that exists, if any.
pub open spec fn first_existing(cands: Seq<CandidateView>) -> Option<Seq<char>>
    decreases cands.len(),
{
    if cands.len() == 0 {
        None
    } else if cands[0].exists {
        Some(cands[0].path)
    } else {
        first_existing(cands.drop_first())
    }
}

/// The bare engine name handed to the OS search path when no candidate exists.
pub open spec fn bare_engine_text() -> Seq<char> {
    "contam_engine"@
}

/// What resolution returns: the first existing candidate, else the bare name.
pub open spec fn resolved_engine(cands: Seq<CandidateView>) -> Seq<char> {
    match first_existing(cands) {
        Some(p) => p,
        None => bare_engine_text(),
    }
}

/// The platform-specific file name the engine is looked for under.
pub open spec fn engine_file_text(windows: bool) -> Seq<char> {
    if windows {
        "contam_engine.exe"@
    } else {
        "contam_engine"@
    }
}

/// The file name of the engine binary next to or above the host executable.
pub fn engine_file_name(windows: bool) -> (r: &'static str)
    ensures
        r@ == engine_file_text(windows),
{
    if windows {
        "contam_engine.exe"
    } else {
        "contam_engine"
    }
}

/// The bare engine name, for the final OS-search-path fallback.
pub fn bare_engine_name() -> (r: &'static str)
    ensures
        r@ == bare_engine_text(),
{
    "contam_engine"
}

proof fn lemma_first_existing_at(cands: Seq<CandidateView>, i: int)
    requires
        0 <= i < cands.len(),
        forall|j: int| 0 <= j < i ==> !(#[trigger] cands[j]).exists,
        cands[i].exists,
    ensures
        first_existing(cands) == Some(cands[i].path),
    decreases i,
{
    if i > 0 {
        lemma_first_existing_at(cands.drop_first(), i - 1);
    }
}

proof fn lemma_first_existing_none(cands: Seq<CandidateView>)
    requires
        forall|j: int| 0 <= j < cands.len() ==> !(#[trigger] cands[j]).exists,
    ensures
        first_existing(cands) is None,
    decreases cands.len(),
{
    if cands.len() > 0 {
        lemma_first_existing_none(cands.drop_first());
    }
}

/// Returns the path of the first candidate that exists, or the bare engine
/// name when none does.
pub fn choose_engine_path(cands: &Vec<Candidate>) -> (r: String)
    ensures
        r@ == resolved_engine(candidate_views(cands@)),
{
    let views = Ghost(candidate_views(cands@));
    let mut i: usize = 0;
    while i < cands.len()
        invariant
            0 <= i <= cands@.len(),
            views@ == candidate_views(cands@),
            views@.len() == cands@.len(),
            forall|j: int| 0 <= j < i ==> !(#[trigger] views@[j]).exists,
        decreases cands@.len() - i,
    {
        if cands[i].exists {
            proof {
                lemma_first_existing_at(views@, i as int);
            }
            return cands[i].path.clone();
        }
        assert(!views@[i as int].exists);
        i = i + 1;
    }
    proof {
        lemma_first_existing_none(views@);
    }
    String::from_str(bare_engine_name())
}

/// Resolution order: an existing first candidate wins; failing that, an
/// existing second candidate wins; only when no candidate exists does the
/// bare-name fallback answer. For the bridge the first candidate is the
/// directory holding the host binary and the second is its parent.
pub proof fn lemma_resolution_order(cands: Seq<CandidateView>)
    requires
        cands.len() == 2,
    ensures
        cands[0].exists ==> resolved_engine(cands) == cands[0].path,
        !cands[0].exists && cands[1].exists ==> resolved_engine(cands) == cands[1].path,
        !cands[0].exists && !cands[1].exists ==> resolved_engine(cands) == bare_engine_text(),
{
    if cands[0].exists {
        lemma_first_existing_at(cands, 0);
    } else if cands[1].exists {
        lemma_first_existing_at(cands, 1);
    } else {
        lemma_first_existing_none(cands);
    }
}

} // verus!
