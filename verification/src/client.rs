//! The fetch orchestrator: resolves one image location per category by
//! trying a randomly chosen provider first and then falling back, first to a
//! sweep over every provider, then to a sweep for the default category.
//!
//! Providers are reached over the network by the surrounding driver, so the
//! resolution is kept as an explicit state machine: each step consumes the
//! outcome of the scrape the driver just performed and says what to do next.

use vstd::prelude::*;

use crate::cache::Category;
use crate::cache::ImageLocation;

verus! {

/// What one scrape call against one provider produced, classified:
/// a list of candidate locations, a category the provider does not serve,
/// or any other (network or parse) failure.
#[derive(Debug)]
pub enum ScrapeOutcome {
    Found(Vec<ImageLocation>),
    Unsupported,
    Failed,
}

/// What the driver must do next: perform one scrape, or stop with the
/// resolution's result.
#[derive(Debug)]
pub enum Action {
    Scrape { provider: usize, category: Category },
    Finished { result: Option<ImageLocation> },
}

/// Where a resolution stands.
#[derive(Clone, Copy, Debug, PartialEq, Eq, Structural)]
pub enum Phase {
    /// Waiting for the randomly chosen first provider's answer.
    Initial { provider: usize },
    /// Sweeping every provider in fixed order for the requested category;
    /// `next` is the provider queried now.
    Sweep { next: usize },
    /// Sweeping every provider for the default category, starting at a
    /// random provider and wrapping around; `tried` providers are done.
    DefaultSweep { start: usize, tried: usize },
    /// The resolution is over.
    Done,
}

/// One in-flight resolution of a single category.
#[derive(Debug)]
pub struct Resolution {
    pub n_providers: usize,
    pub category: Category,
    pub phase: Phase,
}

/// The category substituted when no provider serves the requested one:
/// the primary, most universally supported greeting.
pub open spec fn spec_default_category() -> Category {
    Category::BuonGiorno
}

/// An outcome a resolution can use: a non-empty list of locations.
pub open spec fn usable(o: ScrapeOutcome) -> bool {
    o matches ScrapeOutcome::Found(urls) && urls@.len() > 0
}

/// The provider visited at offset `k` of a wrap-around sweep that starts at
/// `start`, out of `n` providers.
pub open spec fn slot(start: int, k: int, n: int) -> int {
    if start + k < n {
        start + k
    } else {
        start + k - n
    }
}

/// A well-formed resolution: at least one provider, and the phase's indices
/// in range.
pub open spec fn wf(r: Resolution) -> bool {
    &&& 0 < r.n_providers
    &&& match r.phase {
        Phase::Initial { provider } => provider < r.n_providers,
        Phase::Sweep { next } => next < r.n_providers,
        Phase::DefaultSweep { start, tried } => start < r.n_providers && tried < r.n_providers,
        Phase::Done => true,
    }
}

/// A step that ends the resolution successfully: the action hands back a
/// location drawn from the outcome's list, and the phase is Done.
pub open spec fn done_with(o: ScrapeOutcome, post: Resolution, act: Action) -> bool {
    &&& post.phase is Done
    &&& act matches Action::Finished { result: Some(l) } && o matches ScrapeOutcome::Found(
        urls,
    ) && urls@.contains(l)
}

/// A step that ends the resolution with a failure and no location.
pub open spec fn done_failed(post: Resolution, act: Action) -> bool {
    &&& post.phase is Done
    &&& act == (Action::Finished { result: None::<ImageLocation> })
}

/// The resolution's transition relation: how one consumed outcome moves the
/// phase forward and what action it produces. Random draws (which location
/// is picked from a list, where the default sweep starts) are left open.
pub open spec fn step_rel(pre: Resolution, o: ScrapeOutcome, post: Resolution, act: Action) -> bool {
    let n = pre.n_providers;
    &&& post.n_providers == n
    &&& post.category == pre.category
    &&& match pre.phase {
        Phase::Done => false,
        Phase::Initial { provider } => {
            if usable(o) {
                // A non-empty success from the first, random provider: done.
                done_with(o, post, act)
            } else if o is Failed {
                // Any error other than "unsupported" propagates as a failure.
                done_failed(post, act)
            } else {
                // Unsupported (or an empty list): sweep every provider.
                &&& post.phase == (Phase::Sweep { next: 0 })
                &&& act == (Action::Scrape { provider: 0, category: pre.category })
            }
        },
        Phase::Sweep { next } => {
            if usable(o) {
                done_with(o, post, act)
            } else if next + 1 < n {
                &&& post.phase == (Phase::Sweep { next: (next + 1) as usize })
                &&& act == (Action::Scrape { provider: (next + 1) as usize, category: pre.category })
            } else {
                // Requested category exhausted: sweep for the default
                // category from a random starting provider.
                exists|s: usize|
                    s < n && post.phase == (Phase::DefaultSweep { start: s, tried: 0 })
                        && act == (Action::Scrape { provider: s, category: spec_default_category() })
            }
        },
        Phase::DefaultSweep { start, tried } => {
            if usable(o) {
                done_with(o, post, act)
            } else if tried + 1 < n {
                &&& post.phase == (Phase::DefaultSweep { start, tried: (tried + 1) as usize })
                &&& act == (Action::Scrape {
                    provider: slot(start as int, tried + 1 as int, n as int) as usize,
                    category: spec_default_category(),
                })
            } else {
                // Even the default category is served by nobody: fail, and
                // let the cache keep what it holds.
                done_failed(post, act)
            }
        },
    }
}

/// Steps left before the resolution must be over: each step strictly
/// decreases it, so a resolution always ends.
pub open spec fn rank(r: Resolution) -> int {
    let n = r.n_providers as int;
    match r.phase {
        Phase::Initial { provider } => 2 * n + 1,
        Phase::Sweep { next } => 2 * n - next,
        Phase::DefaultSweep { start, tried } => n - tried,
        Phase::Done => 0,
    }
}

/// Relies on rand::random_range: a uniform draw below `n`; the range must
/// not be empty, and the result is always within it.
#[verifier::external_body]
fn random_below(n: usize) -> (r: usize)
    requires
        n > 0,
    ensures
        r < n,
{
    rand::random_range(0..n)
}

impl Resolution {
    /// Begin resolving `category` against `n_providers` providers, the given
    /// one queried first. The first action is always that single scrape.
    pub fn start(n_providers: usize, category: Category, first: usize) -> (r: (Resolution, Action))
        requires
            0 < n_providers,
            first < n_providers,
        ensures
            wf(r.0),
            r.0.n_providers == n_providers,
            r.0.category == category,
            r.0.phase == (Phase::Initial { provider: first }),
            r.1 == (Action::Scrape { provider: first, category }),
    {
        (
            Resolution { n_providers, category, phase: Phase::Initial { provider: first } },
            Action::Scrape { provider: first, category },
        )
    }

    /// Whether this resolution is over. A finished resolution must not be
    /// stepped again.
    pub fn finished(&self) -> (r: bool)
        ensures
            r == (self.phase is Done),
    {
        match self.phase {
            Phase::Done => true,
            _ => false,
        }
    }

    /// Consume the outcome of the scrape just performed and move on: either
    /// another scrape to perform, or the finished result.
    pub fn step(&mut self, outcome: ScrapeOutcome) -> (act: Action)
        requires
            wf(*old(self)),
            !(old(self).phase is Done),
        ensures
            wf(*final(self)),
            step_rel(*old(self), outcome, *final(self), act),
            act is Scrape ==> !(final(self).phase is Done) && rank(*final(self)) < rank(
                *old(self),
            ),
            act is Finished ==> final(self).phase is Done,
            act matches Action::Scrape { provider, category } ==> provider < old(
                self,
            ).n_providers && (category == old(self).category || category
                == spec_default_category()),
    {
        let n = self.n_providers;
        match outcome {
            ScrapeOutcome::Found(urls) if urls.len() > 0 => {
                let pick = random_below(urls.len());
                let l = urls[pick].duplicate();
                self.phase = Phase::Done;
                let ghost o = ScrapeOutcome::Found(urls);
                proof {
                    assert(o matches ScrapeOutcome::Found(u) && u@.contains(l));
                }
                Action::Finished { result: Some(l) }
            },
            outcome => {
                match self.phase {
                    Phase::Initial { provider } => {
                        match outcome {
                            ScrapeOutcome::Failed => {
                                self.phase = Phase::Done;
                                Action::Finished { result: None }
                            },
                            _ => {
                                self.phase = Phase::Sweep { next: 0 };
                                Action::Scrape { provider: 0, category: self.category }
                            },
                        }
                    },
                    Phase::Sweep { next } => {
                        if next + 1 < n {
                            self.phase = Phase::Sweep { next: next + 1 };
                            Action::Scrape { provider: next + 1, category: self.category }
                        } else {
                            let s = random_below(n);
                            self.phase = Phase::DefaultSweep { start: s, tried: 0 };
                            Action::Scrape { provider: s, category: Category::BuonGiorno }
                        }
                    },
                    Phase::DefaultSweep { start, tried } => {
                        if tried + 1 < n {
                            self.phase = Phase::DefaultSweep { start, tried: tried + 1 };
                            let p = if start < n - (tried + 1) {
                                start + (tried + 1)
                            } else {
                                start - (n - (tried + 1))
                            };
                            Action::Scrape { provider: p, category: Category::BuonGiorno }
                        } else {
                            self.phase = Phase::Done;
                            Action::Finished { result: None }
                        }
                    },
                    Phase::Done => {
                        // Unreachable: a Done resolution is never stepped.
                        proof {
                            assert(false);
                        }
                        Action::Finished { result: None }
                    },
                }
            },
        }
    }
}

// ---------------------------------------------------------------------------
// Laws of the fallback chain, stated over runs of the resolution protocol.
//
// A run is modelled against fixed provider behaviour: `ans_req[p]` is what
// provider `p` answers for the requested category, `ans_def[p]` what it
// answers for the default category.
// ---------------------------------------------------------------------------

/// The answer the fixed provider behaviour gives to the scrape `r` waits on.
pub open spec fn answer_of(
    r: Resolution,
    ans_req: Seq<ScrapeOutcome>,
    ans_def: Seq<ScrapeOutcome>,
) -> ScrapeOutcome {
    match r.phase {
        Phase::Initial { provider } => ans_req[provider as int],
        Phase::Sweep { next } => ans_req[next as int],
        Phase::DefaultSweep { start, tried } => ans_def[slot(
            start as int,
            tried as int,
            r.n_providers as int,
        )],
        Phase::Done => ScrapeOutcome::Failed,
    }
}

/// Some provider in the table answers with a non-empty list.
pub open spec fn any_usable(ans: Seq<ScrapeOutcome>) -> bool {
    exists|j: int| 0 <= j < ans.len() && usable(ans[j])
}

/// Some provider at index `from` or later answers with a non-empty list.
pub open spec fn sweep_finds(ans: Seq<ScrapeOutcome>, from: int) -> bool {
    exists|j: int| from <= j < ans.len() && usable(ans[j])
}

/// The location `l` is drawn from some provider's answer in the table.
pub open spec fn location_from(l: ImageLocation, ans: Seq<ScrapeOutcome>) -> bool {
    exists|j: int|
        0 <= j < ans.len() && ((#[trigger] ans[j]) matches ScrapeOutcome::Found(urls)
            && urls@.contains(l))
}

/// A run of the resolution protocol: consecutive states joined by the step
/// relation, each consumed outcome being the fixed answer of the provider
/// queried at that point.
pub open spec fn valid_run(
    states: Seq<Resolution>,
    acts: Seq<Action>,
    ans_req: Seq<ScrapeOutcome>,
    ans_def: Seq<ScrapeOutcome>,
) -> bool {
    &&& states.len() == acts.len() + 1
    &&& forall|i: int|
        0 <= i < acts.len() ==> !((#[trigger] states[i]).phase is Done) && step_rel(
            states[i],
            answer_of(states[i], ans_req, ans_def),
            states[i + 1],
            acts[i],
        )
}

/// A step keeps the resolution well-formed.
proof fn lemma_step_preserves_wf(pre: Resolution, o: ScrapeOutcome, post: Resolution, act: Action)
    requires
        wf(pre),
        step_rel(pre, o, post, act),
    ensures
        wf(post),
        post.n_providers == pre.n_providers,
        act is Finished ==> post.phase is Done,
        rank(post) < rank(pre),
{
}

/// Along a run, every state is well-formed and the provider count is fixed.
proof fn lemma_run_wf(
    states: Seq<Resolution>,
    acts: Seq<Action>,
    ans_req: Seq<ScrapeOutcome>,
    ans_def: Seq<ScrapeOutcome>,
    i: int,
)
    requires
        valid_run(states, acts, ans_req, ans_def),
        wf(states[0]),
        0 <= i < states.len(),
    ensures
        wf(states[i]),
        states[i].n_providers == states[0].n_providers,
    decreases i,
{
    if i > 0 {
        lemma_run_wf(states, acts, ans_req, ans_def, i - 1);
        lemma_step_preserves_wf(
            states[i - 1],
            answer_of(states[i - 1], ans_req, ans_def),
            states[i],
            acts[i - 1],
        );
    }
}

/// The invariant of a resolution that is bound to succeed on the requested
/// category: waiting on a first answer that is not a hard failure while some
/// provider has a non-empty list, or sweeping with such a provider ahead.
pub open spec fn req_run_ok(r: Resolution, ans_req: Seq<ScrapeOutcome>) -> bool {
    match r.phase {
        Phase::Initial { provider } => !(ans_req[provider as int] is Failed) && any_usable(
            ans_req,
        ),
        Phase::Sweep { next } => sweep_finds(ans_req, next as int),
        Phase::DefaultSweep { .. } => false,
        Phase::Done => false,
    }
}

/// One step from a state bound to succeed on the requested category either
/// finishes with a location from the requested-category table, or stays
/// bound to succeed.
proof fn lemma_req_step(
    pre: Resolution,
    post: Resolution,
    act: Action,
    ans_req: Seq<ScrapeOutcome>,
    ans_def: Seq<ScrapeOutcome>,
)
    requires
        wf(pre),
        ans_req.len() == pre.n_providers,
        req_run_ok(pre, ans_req),
        step_rel(pre, answer_of(pre, ans_req, ans_def), post, act),
    ensures
        act matches Action::Finished { result } ==> result matches Some(l) && location_from(
            l,
            ans_req,
        ),
        act is Scrape ==> req_run_ok(post, ans_req),
{
    let o = answer_of(pre, ans_req, ans_def);
    match pre.phase {
        Phase::Initial { provider } => {
            if usable(o) {
                lemma_location_at(ans_req, provider as int, act);
            }
        },
        Phase::Sweep { next } => {
            if usable(o) {
                lemma_location_at(ans_req, next as int, act);
            } else {
                let j = choose|j: int| next <= j < ans_req.len() && usable(ans_req[j]);
                assert(next + 1 <= j < ans_req.len());
                assert(sweep_finds(ans_req, next + 1));
            }
        },
        _ => {},
    }
}

/// When a finishing step drew its location from the answer at index `j`,
/// that location is drawn from the table.
proof fn lemma_location_at(ans: Seq<ScrapeOutcome>, j: int, act: Action)
    requires
        0 <= j < ans.len(),
    ensures
        (act matches Action::Finished { result: Some(l) } && (ans[j] matches
        ScrapeOutcome::Found(urls)
            && urls@.contains(l))) ==> (act matches Action::Finished { result: Some(l) }
            && location_from(l, ans)),
{
}

/// Law: a completed resolution that started bound to succeed on the
/// requested category returns a location from some provider's non-empty
/// answer for that category.
pub proof fn lemma_run_resolves_requested(
    states: Seq<Resolution>,
    acts: Seq<Action>,
    ans_req: Seq<ScrapeOutcome>,
    ans_def: Seq<ScrapeOutcome>,
)
    requires
        valid_run(states, acts, ans_req, ans_def),
        acts.len() > 0,
        wf(states[0]),
        ans_req.len() == states[0].n_providers,
        req_run_ok(states[0], ans_req),
        acts.last() is Finished,
    ensures
        acts.last() matches Action::Finished { result: Some(l) } && location_from(l, ans_req),
    decreases acts.len(),
{
    let o0 = answer_of(states[0], ans_req, ans_def);
    if acts.len() == 1 {
        lemma_req_step(states[0], states[1], acts[0], ans_req, ans_def);
    } else {
        // The first action cannot already be Finished: the next step starts
        // from a state that is not Done.
        lemma_step_preserves_wf(states[0], o0, states[1], acts[0]);
        assert(!(states[1].phase is Done));
        assert(acts[0] is Scrape);
        lemma_req_step(states[0], states[1], acts[0], ans_req, ans_def);
        let states2 = states.subrange(1, states.len() as int);
        let acts2 = acts.subrange(1, acts.len() as int);
        assert forall|i: int| 0 <= i < acts2.len() implies !((#[trigger] states2[i]).phase
            is Done) && step_rel(
            states2[i],
            answer_of(states2[i], ans_req, ans_def),
            states2[i + 1],
            acts2[i],
        ) by {
            assert(states2[i] == states[i + 1]);
            assert(states2[i + 1] == states[i + 2]);
            assert(acts2[i] == acts[i + 1]);
        }
        lemma_run_resolves_requested(states2, acts2, ans_req, ans_def);
        assert(acts2.last() == acts.last());
    }
}

/// Law: when every provider answers the requested category either with
/// "unsupported" or with a non-empty list, and at least one answers with a
/// non-empty list, a completed resolution returns a location drawn from one
/// of those lists — whichever provider was randomly tried first.
pub proof fn lemma_unsupported_falls_back(
    states: Seq<Resolution>,
    acts: Seq<Action>,
    ans_req: Seq<ScrapeOutcome>,
    ans_def: Seq<ScrapeOutcome>,
)
    requires
        valid_run(states, acts, ans_req, ans_def),
        acts.len() > 0,
        wf(states[0]),
        states[0].phase is Initial,
        ans_req.len() == states[0].n_providers,
        forall|p: int|
            0 <= p < ans_req.len() ==> (#[trigger] ans_req[p]) is Unsupported || usable(ans_req[p]),
        any_usable(ans_req),
        acts.last() is Finished,
    ensures
        acts.last() matches Action::Finished { result: Some(l) } && location_from(l, ans_req),
{
    lemma_run_resolves_requested(states, acts, ans_req, ans_def);
}

/// The invariant of a resolution bound to succeed on the default category:
/// no provider serves the requested one, but some provider's default answer
/// is still ahead.
/// Some provider not yet visited by a wrap-around default sweep answers the
/// default category with a non-empty list.
pub open spec fn dsweep_finds(ans_def: Seq<ScrapeOutcome>, start: int, tried: int, n: int) -> bool {
    exists|j: int| tried <= j < n && usable(ans_def[slot(start, j, n)])
}

pub open spec fn def_run_ok(
    r: Resolution,
    ans_req: Seq<ScrapeOutcome>,
    ans_def: Seq<ScrapeOutcome>,
) -> bool {
    let n = r.n_providers as int;
    match r.phase {
        Phase::Initial { provider } => !(ans_req[provider as int] is Failed) && !any_usable(ans_req)
            && any_usable(ans_def),
        Phase::Sweep { next } => !sweep_finds(ans_req, next as int) && any_usable(ans_def),
        Phase::DefaultSweep { start, tried } => dsweep_finds(ans_def, start as int, tried as int, n),
        Phase::Done => false,
    }
}

/// One step from a state bound to succeed on the default category either
/// finishes with a location from the default-category table, or stays bound
/// to succeed.
proof fn lemma_def_step(
    pre: Resolution,
    post: Resolution,
    act: Action,
    ans_req: Seq<ScrapeOutcome>,
    ans_def: Seq<ScrapeOutcome>,
)
    requires
        wf(pre),
        ans_req.len() == pre.n_providers,
        ans_def.len() == pre.n_providers,
        def_run_ok(pre, ans_req, ans_def),
        step_rel(pre, answer_of(pre, ans_req, ans_def), post, act),
    ensures
        act matches Action::Finished { result } ==> result matches Some(l) && location_from(
            l,
            ans_def,
        ),
        act is Scrape ==> def_run_ok(post, ans_req, ans_def),
{
    let n = pre.n_providers as int;
    let o = answer_of(pre, ans_req, ans_def);
    match pre.phase {
        Phase::Initial { provider } => {
            assert(!usable(o));
            assert(!sweep_finds(ans_req, 0)) by {
                if sweep_finds(ans_req, 0) {
                    let j = choose|j: int| 0 <= j < ans_req.len() && usable(ans_req[j]);
                    assert(0 <= j < ans_req.len() && usable(ans_req[j]));
                }
            }
            assert(act is Scrape ==> def_run_ok(post, ans_req, ans_def));
        },
        Phase::Sweep { next } => {
            assert(!usable(o));
            if next + 1 < n {
                assert(!sweep_finds(ans_req, next + 1)) by {
                    if sweep_finds(ans_req, next + 1) {
                        let j = choose|j: int|
                            next + 1 <= j < ans_req.len() && usable(ans_req[j]);
                        assert(next <= j < ans_req.len() && usable(ans_req[j]));
                    }
                }
                assert(((next + 1) as usize) as int == next + 1);
            } else {
                let s = choose|s: usize|
                    s < pre.n_providers && post.phase == (Phase::DefaultSweep {
                        start: s,
                        tried: 0,
                    }) && act == (Action::Scrape {
                        provider: s,
                        category: spec_default_category(),
                    });
                let i0 = choose|j: int| 0 <= j < ans_def.len() && usable(ans_def[j]);
                let j = if i0 >= s { i0 - s } else { i0 - s + n };
                assert(slot(s as int, j, n) == i0);
                assert(dsweep_finds(ans_def, s as int, 0, n)) by {
                    assert(0 <= j < n && usable(ans_def[slot(s as int, j, n)]));
                }
                assert(post.n_providers as int == n);
            }
            assert(act is Scrape ==> def_run_ok(post, ans_req, ans_def));
        },
        Phase::DefaultSweep { start, tried } => {
            if usable(o) {
                let q = slot(start as int, tried as int, n);
                assert(0 <= q < n);
                assert(act matches Action::Finished { result: Some(l) } ==> location_from(
                    l,
                    ans_def,
                ));
            } else {
                let j = choose|j: int| tried <= j < n && usable(ans_def[slot(start as int, j, n)]);
                assert(j != tried);
                assert(tried + 1 <= j < n);
                assert(dsweep_finds(ans_def, start as int, tried + 1, n)) by {
                    assert(tried + 1 <= j < n && usable(ans_def[slot(start as int, j, n)]));
                }
                assert(((tried + 1) as usize) as int == tried + 1);
                assert(post.n_providers as int == n);
            }
            assert(act is Scrape ==> def_run_ok(post, ans_req, ans_def));
        },
        Phase::Done => {},
    }
}

/// Law: when no provider returns any location for the requested category,
/// but some provider serves the default category, and the first (random)
/// scrape does not hard-fail, a completed resolution returns a location
/// resolved against the default category rather than failing.
pub proof fn lemma_default_category_rescues(
    states: Seq<Resolution>,
    acts: Seq<Action>,
    ans_req: Seq<ScrapeOutcome>,
    ans_def: Seq<ScrapeOutcome>,
)
    requires
        valid_run(states, acts, ans_req, ans_def),
        acts.len() > 0,
        wf(states[0]),
        ans_req.len() == states[0].n_providers,
        ans_def.len() == states[0].n_providers,
        def_run_ok(states[0], ans_req, ans_def),
        acts.last() is Finished,
    ensures
        acts.last() matches Action::Finished { result: Some(l) } && location_from(l, ans_def),
    decreases acts.len(),
{
    let o0 = answer_of(states[0], ans_req, ans_def);
    if acts.len() == 1 {
        lemma_def_step(states[0], states[1], acts[0], ans_req, ans_def);
    } else {
        lemma_step_preserves_wf(states[0], o0, states[1], acts[0]);
        assert(!(states[1].phase is Done));
        assert(acts[0] is Scrape);
        lemma_def_step(states[0], states[1], acts[0], ans_req, ans_def);
        let states2 = states.subrange(1, states.len() as int);
        let acts2 = acts.subrange(1, acts.len() as int);
        assert forall|i: int| 0 <= i < acts2.len() implies !((#[trigger] states2[i]).phase
            is Done) && step_rel(
            states2[i],
            answer_of(states2[i], ans_req, ans_def),
            states2[i + 1],
            acts2[i],
        ) by {
            assert(states2[i] == states[i + 1]);
            assert(states2[i + 1] == states[i + 2]);
            assert(acts2[i] == acts[i + 1]);
        }
        lemma_default_category_rescues(states2, acts2, ans_req, ans_def);
        assert(acts2.last() == acts.last());
    }
}

/// Law: when no provider returns any location for either the requested or
/// the default category, a completed resolution reports failure — it hands
/// back no location at all, so the cache-write step leaves the cache exactly
/// as it was.
pub proof fn lemma_exhaustion_fails(
    states: Seq<Resolution>,
    acts: Seq<Action>,
    ans_req: Seq<ScrapeOutcome>,
    ans_def: Seq<ScrapeOutcome>,
)
    requires
        valid_run(states, acts, ans_req, ans_def),
        acts.len() > 0,
        wf(states[0]),
        ans_req.len() == states[0].n_providers,
        ans_def.len() == states[0].n_providers,
        forall|p: int| 0 <= p < ans_req.len() ==> !usable(#[trigger] ans_req[p]),
        forall|p: int| 0 <= p < ans_def.len() ==> !usable(#[trigger] ans_def[p]),
        acts.last() is Finished,
    ensures
        acts.last() == (Action::Finished { result: None::<ImageLocation> }),
{
    let m = acts.len() as int;
    lemma_run_wf(states, acts, ans_req, ans_def, m - 1);
    let o = answer_of(states[m - 1], ans_req, ans_def);
    assert(!usable(o));
}

/// Law: a resolution always ends. A run can take at most `rank` steps from
/// its starting state — two sweeps over the providers plus the first try —
/// so the driver's loop terminates.
pub proof fn lemma_run_terminates(
    states: Seq<Resolution>,
    acts: Seq<Action>,
    ans_req: Seq<ScrapeOutcome>,
    ans_def: Seq<ScrapeOutcome>,
)
    requires
        valid_run(states, acts, ans_req, ans_def),
        wf(states[0]),
    ensures
        acts.len() <= rank(states[0]),
    decreases acts.len(),
{
    if acts.len() > 0 {
        let o0 = answer_of(states[0], ans_req, ans_def);
        lemma_step_preserves_wf(states[0], o0, states[1], acts[0]);
        let states2 = states.subrange(1, states.len() as int);
        let acts2 = acts.subrange(1, acts.len() as int);
        assert forall|i: int| 0 <= i < acts2.len() implies !((#[trigger] states2[i]).phase
            is Done) && step_rel(
            states2[i],
            answer_of(states2[i], ans_req, ans_def),
            states2[i + 1],
            acts2[i],
        ) by {
            assert(states2[i] == states[i + 1]);
            assert(states2[i + 1] == states[i + 2]);
            assert(acts2[i] == acts[i + 1]);
        }
        lemma_run_terminates(states2, acts2, ans_req, ans_def);
    }
}

/// The orchestrator's configuration: how many providers are available.
/// Provider identities live with the driver; the orchestrator only picks
/// indices below this count.
pub struct Client {
    pub n_providers: usize,
}

impl Client {
    pub fn new(n_providers: usize) -> (c: Client)
        requires
            0 < n_providers,
        ensures
            c.n_providers == n_providers,
    {
        Client { n_providers }
    }

    /// Begin resolving one image for `category`, first trying one provider
    /// chosen at random, as the resolution's starting state and first action.
    pub fn resolve_image(&self, category: Category) -> (r: (Resolution, Action))
        requires
            0 < self.n_providers,
        ensures
            wf(r.0),
            r.0.n_providers == self.n_providers,
            r.0.category == category,
            r.0.phase matches Phase::Initial { provider } && provider < self.n_providers
                && r.1 == (Action::Scrape { provider, category }),
    {
        let first = random_below(self.n_providers);
        Resolution::start(self.n_providers, category, first)
    }
}

} // verus!
