//! The mapping engine's platform-independent core.
//!
//! Mapping several views contiguously is planned here: a [`MapPlan`] fixes,
//! before any platform call, the byte offset at which each view must land so
//! that the views sit back-to-back in the supplied order. On platforms whose
//! primitive cannot place several regions atomically, each planned attempt
//! may be beaten by another thread claiming part of the chosen range; the
//! [`PlacementProtocol`] bounds the retries of that race and distinguishes an
//! exhausted budget as the race-condition error. Unmapping walks the same
//! per-view lengths; [`unmap_regions`] recovers the sub-ranges and
//! [`unmap_outcome`] keeps the first error while every sub-range is still
//! attempted.

use vstd::prelude::*;
use crate::error::{Error, ErrorKind};
// Imported under another name: an import called `View` would shadow the
// prelude trait behind the `@` operator.
use crate::object::View as ObjectView;
use crate::object::ViewMut;
use crate::perms::ViewPermissions;

verus! {

/// The sum of the first `i` entries of `s`.
pub open spec fn sum_prefix(s: Seq<int>, i: int) -> int
    decreases i,
{
    if i <= 0 {
        0
    } else {
        sum_prefix(s, i - 1) + s[i - 1]
    }
}

/// A prefix sum of a non-negative sequence is non-negative.
pub proof fn lemma_sum_prefix_nonneg(s: Seq<int>, i: int)
    requires
        i <= s.len(),
        forall|k: int| 0 <= k < s.len() ==> s[k] >= 0,
    ensures
        sum_prefix(s, i) >= 0,
    decreases i,
{
    if i > 0 {
        lemma_sum_prefix_nonneg(s, i - 1);
    }
}

/// Prefix sums of a non-negative sequence grow with the prefix.
pub proof fn lemma_sum_prefix_mono(s: Seq<int>, i: int, j: int)
    requires
        0 <= i <= j <= s.len(),
        forall|k: int| 0 <= k < s.len() ==> s[k] >= 0,
    ensures
        sum_prefix(s, i) <= sum_prefix(s, j),
    decreases j,
{
    if i < j {
        lemma_sum_prefix_mono(s, i, j - 1);
    }
}

/// The byte lengths of a sequence of views.
pub open spec fn view_lengths<'a>(views: Seq<ObjectView<'a>>) -> Seq<int> {
    Seq::new(views.len(), |i: int| views[i].length_spec().value_spec() as int)
}

/// The byte lengths of a sequence of mutable views.
pub open spec fn view_mut_lengths<'a>(views: Seq<ViewMut<'a>>) -> Seq<int> {
    Seq::new(views.len(), |i: int| views[i].length_spec().value_spec() as int)
}

/// The total byte length of a contiguous mapping of `views`, in order.
pub fn map_length<'a>(views: &Vec<ObjectView<'a>>) -> (r: usize)
    requires
        sum_prefix(view_lengths(views@), views@.len() as int) <= usize::MAX,
    ensures
        r == sum_prefix(view_lengths(views@), views@.len() as int),
{
    let ghost s = view_lengths(views@);
    let mut total: usize = 0;
    let mut i: usize = 0;
    while i < views.len()
        invariant
            i <= views@.len(),
            s == view_lengths(views@),
            total == sum_prefix(s, i as int),
            sum_prefix(s, views@.len() as int) <= usize::MAX,
        decreases views@.len() - i,
    {
        proof {
            lemma_sum_prefix_mono(s, i + 1, views@.len() as int);
            lemma_sum_prefix_nonneg(s, i as int);
        }
        total = total + views[i].length().to_usize();
        i = i + 1;
    }
    total
}

/// One view's place within a contiguous mapping: the byte offset from the
/// start of the whole range, the byte length, and the permission mode the
/// platform call must honor.
#[derive(Clone, Copy, Debug, PartialEq, Eq, Structural)]
pub struct Placement {
    pub offset: usize,
    pub length: usize,
    pub permissions: ViewPermissions,
}

/// Where each of several views must land so that they form one contiguous
/// range of `total` bytes, in order.
#[derive(Debug)]
pub struct MapPlan {
    pub placements: Vec<Placement>,
    pub total: usize,
}

impl MapPlan {
    /// The byte lengths of the planned sub-ranges.
    pub open spec fn lengths(&self) -> Seq<int> {
        Seq::new(self.placements@.len(), |i: int| self.placements@[i].length as int)
    }

    /// Each placement begins at the sum of the lengths before it, and the
    /// total is the sum of all of them.
    pub open spec fn wf(&self) -> bool {
        &&& self.total == sum_prefix(self.lengths(), self.placements@.len() as int)
        &&& forall|i: int|
            0 <= i < self.placements@.len() ==> (#[trigger] self.placements@[i]).offset
                == sum_prefix(self.lengths(), i)
    }
}

/// The plan lays the views out back-to-back in the supplied order.
pub open spec fn plan_matches_views<'a>(p: MapPlan, views: Seq<ObjectView<'a>>) -> bool {
    &&& p.placements@.len() == views.len()
    &&& forall|i: int|
        0 <= i < views.len() ==> {
            &&& (#[trigger] p.placements@[i]).length == views[i].length_spec().value_spec()
            &&& p.placements@[i].permissions == views[i].permissions_spec()
            &&& p.placements@[i].offset == sum_prefix(view_lengths(views), i)
        }
    &&& p.total == sum_prefix(view_lengths(views), views.len() as int)
}

/// The plan lays the mutable views out back-to-back in the supplied order.
pub open spec fn plan_matches_views_mut<'a>(p: MapPlan, views: Seq<ViewMut<'a>>) -> bool {
    &&& p.placements@.len() == views.len()
    &&& forall|i: int|
        0 <= i < views.len() ==> {
            &&& (#[trigger] p.placements@[i]).length == views[i].length_spec().value_spec()
            &&& p.placements@[i].permissions == views[i].permissions_spec()
            &&& p.placements@[i].offset == sum_prefix(view_mut_lengths(views), i)
        }
    &&& p.total == sum_prefix(view_mut_lengths(views), views.len() as int)
}

/// Plan a contiguous mapping of `views`, in order.
///
/// Where a mutable mapping is requested, every view must be mutable: a single
/// view that is not aborts the whole batch with `AccessDenied` before any
/// platform call would be made.
pub fn plan_multiple<'a>(views: &Vec<ObjectView<'a>>, mutable: bool) -> (r: Result<MapPlan, Error>)
    requires
        sum_prefix(view_lengths(views@), views@.len() as int) <= usize::MAX,
    ensures
        r is Ok <==> (mutable ==> forall|i: int|
            0 <= i < views@.len() ==> (#[trigger] views@[i]).is_mutable_spec()),
        r matches Err(e) ==> e.kind is AccessDenied,
        r matches Ok(p) ==> plan_matches_views(p, views@) && p.wf(),
{
    let ghost s = view_lengths(views@);
    if mutable {
        let mut i: usize = 0;
        while i < views.len()
            invariant
                mutable,
                i <= views@.len(),
                forall|k: int| 0 <= k < i ==> (#[trigger] views@[k]).is_mutable_spec(),
            decreases views@.len() - i,
        {
            if !views[i].is_mutable() {
                proof {
                    assert(!(#[trigger] views@[i as int]).is_mutable_spec());
                }
                return Err(Error::access_denied());
            }
            i = i + 1;
        }
    }
    let mut placements: Vec<Placement> = Vec::new();
    let mut offset: usize = 0;
    let mut i: usize = 0;
    while i < views.len()
        invariant
            i <= views@.len(),
            s == view_lengths(views@),
            placements@.len() == i,
            offset == sum_prefix(s, i as int),
            sum_prefix(s, views@.len() as int) <= usize::MAX,
            forall|k: int|
                0 <= k < i ==> {
                    &&& (#[trigger] placements@[k]).length
                        == views@[k].length_spec().value_spec()
                    &&& placements@[k].permissions == views@[k].permissions_spec()
                    &&& placements@[k].offset == sum_prefix(s, k)
                },
        decreases views@.len() - i,
    {
        proof {
            lemma_sum_prefix_mono(s, i + 1, views@.len() as int);
            lemma_sum_prefix_nonneg(s, i as int);
        }
        let length = views[i].length().to_usize();
        let permissions = views[i].permissions();
        placements.push(Placement { offset, length, permissions });
        offset = offset + length;
        i = i + 1;
    }
    let p = MapPlan { placements, total: offset };
    proof {
        assert(p.lengths() =~= view_lengths(views@));
    }
    Ok(p)
}

/// Plan a contiguous mutable mapping of `views`, in order. Every mutable view
/// is mutable by construction, so this never reports `AccessDenied`.
pub fn plan_multiple_mut<'a>(views: &Vec<ViewMut<'a>>) -> (r: Result<MapPlan, Error>)
    requires
        sum_prefix(view_mut_lengths(views@), views@.len() as int) <= usize::MAX,
    ensures
        r is Ok,
        r matches Ok(p) ==> plan_matches_views_mut(p, views@) && p.wf(),
{
    let ghost s = view_mut_lengths(views@);
    let mut placements: Vec<Placement> = Vec::new();
    let mut offset: usize = 0;
    let mut i: usize = 0;
    while i < views.len()
        invariant
            i <= views@.len(),
            s == view_mut_lengths(views@),
            placements@.len() == i,
            offset == sum_prefix(s, i as int),
            sum_prefix(s, views@.len() as int) <= usize::MAX,
            forall|k: int|
                0 <= k < i ==> {
                    &&& (#[trigger] placements@[k]).length
                        == views@[k].length_spec().value_spec()
                    &&& placements@[k].permissions == views@[k].permissions_spec()
                    &&& placements@[k].offset == sum_prefix(s, k)
                },
        decreases views@.len() - i,
    {
        proof {
            lemma_sum_prefix_mono(s, i + 1, views@.len() as int);
            lemma_sum_prefix_nonneg(s, i as int);
        }
        let length = views[i].length().to_usize();
        let permissions = views[i].permissions();
        placements.push(Placement { offset, length, permissions });
        offset = offset + length;
        i = i + 1;
    }
    let p = MapPlan { placements, total: offset };
    proof {
        assert(p.lengths() =~= view_mut_lengths(views@));
    }
    Ok(p)
}

/// Law: a well-formed plan is contiguous — the first placement begins at
/// zero, each next placement begins exactly where the previous one ends, and
/// the last one ends exactly at the plan's total. There is no gap and no
/// overlap between planned sub-ranges.
pub proof fn lemma_plan_contiguous(p: MapPlan)
    requires
        p.wf(),
    ensures
        p.placements@.len() > 0 ==> p.placements@[0].offset == 0,
        forall|i: int|
            #![trigger p.placements@[i]]
            0 <= i < p.placements@.len() - 1 ==> p.placements@[i].offset + p.placements@[i].length
                == p.placements@[i + 1].offset,
        p.placements@.len() > 0 ==> p.placements@[p.placements@.len() - 1].offset
            + p.placements@[p.placements@.len() - 1].length == p.total,
{
    let s = p.lengths();
    assert forall|i: int| 0 <= i < p.placements@.len() implies #[trigger] sum_prefix(s, i + 1)
        == sum_prefix(s, i) + p.placements@[i].length by {
        assert(sum_prefix(s, i + 1) == sum_prefix(s, i) + s[i]);
    }
}

/// How many times the placement protocol will attempt to claim and fill a
/// contiguous range before giving up.
pub const MAX_ATTEMPTS: u32 = 10;

/// What one whole placement attempt reported back.
#[derive(Clone, Copy, Debug, PartialEq, Eq, Structural)]
pub enum AttemptOutcome {
    /// Every view landed at its planned place.
    Placed,
    /// Some sub-mapping failed — most likely another thread claimed part of
    /// the chosen range first — and the partial work was torn down; the
    /// platform's error number is carried along.
    Clashed(i32),
}

/// What the protocol decides after an attempt.
#[derive(Clone, Copy, Debug, PartialEq, Eq, Structural)]
pub enum ProtocolStep {
    /// The mapping stands; stop.
    Finished,
    /// The attempt was beaten by the race; claim a fresh range and try again.
    TryAgain,
    /// The retry budget is exhausted; surface the race-condition error.
    GiveUp(Error),
}

/// What is decided after one attempt, given how many attempts remain: the
/// remaining budget afterwards, and the step to take.
pub open spec fn protocol_step_spec(remaining: u32, outcome: AttemptOutcome) -> (u32, ProtocolStep) {
    match outcome {
        AttemptOutcome::Placed => (remaining, ProtocolStep::Finished),
        AttemptOutcome::Clashed(code) => if remaining <= 1 {
            (0u32, ProtocolStep::GiveUp(Error { kind: ErrorKind::RaceCondition, code }))
        } else {
            ((remaining - 1) as u32, ProtocolStep::TryAgain)
        },
    }
}

/// The terminal step a run of the protocol reaches on a sequence of attempt
/// outcomes, starting from `remaining` attempts — or `None` if the outcomes
/// run out before the protocol stops.
pub open spec fn protocol_run(remaining: int, outcomes: Seq<AttemptOutcome>) -> Option<ProtocolStep>
    decreases outcomes.len(),
{
    if outcomes.len() == 0 {
        None
    } else {
        match outcomes[0] {
            AttemptOutcome::Placed => Some(ProtocolStep::Finished),
            AttemptOutcome::Clashed(code) => if remaining <= 1 {
                Some(ProtocolStep::GiveUp(Error { kind: ErrorKind::RaceCondition, code }))
            } else {
                protocol_run(remaining - 1, outcomes.drop_first())
            },
        }
    }
}

/// Law: the placement protocol never runs unboundedly and never hangs on
/// repeated races. Any sequence of at least as many outcomes as the starting
/// budget drives it to a terminal step, and that step either finishes with a
/// standing mapping or gives up with the race-condition error.
pub proof fn lemma_protocol_terminates(remaining: int, outcomes: Seq<AttemptOutcome>)
    requires
        1 <= remaining,
        outcomes.len() >= remaining,
    ensures
        protocol_run(remaining, outcomes) is Some,
        protocol_run(remaining, outcomes) matches Some(s) ==> s is Finished || (s matches
        ProtocolStep::GiveUp(e) && e.kind is RaceCondition),
    decreases outcomes.len(),
{
    match outcomes[0] {
        AttemptOutcome::Placed => {},
        AttemptOutcome::Clashed(_) => {
            if remaining > 1 {
                lemma_protocol_terminates(remaining - 1, outcomes.drop_first());
            }
        },
    }
}

/// Law: when every attempt clashes, the protocol gives up after exactly its
/// budget of attempts, and the race-condition error it surfaces carries the
/// error number observed on the last attempt made — not an earlier one.
pub proof fn lemma_protocol_surfaces_last_error(remaining: int, outcomes: Seq<AttemptOutcome>)
    requires
        1 <= remaining <= outcomes.len(),
        forall|i: int| 0 <= i < outcomes.len() ==> (#[trigger] outcomes[i]) is Clashed,
    ensures
        protocol_run(remaining, outcomes) is Some,
        protocol_run(remaining, outcomes) matches Some(s) ==> (s matches ProtocolStep::GiveUp(e)
            && e.kind is RaceCondition && e.code == outcomes[remaining - 1]->0),
    decreases outcomes.len(),
{
    if remaining > 1 {
        lemma_protocol_surfaces_last_error(remaining - 1, outcomes.drop_first());
    }
}

/// The bounded-retry state of one run of the contiguous-placement protocol.
///
/// The caller performs each attempt — claim a free range, map every view at
/// its planned place, tear the attempt down on a clash — and reports the
/// outcome; the protocol decides whether to stop, retry, or give up, and
/// never allows more than [`MAX_ATTEMPTS`] attempts.
#[derive(Clone, Copy, Debug)]
pub struct PlacementProtocol {
    remaining: u32,
}

impl PlacementProtocol {
    /// How many attempts may still be reported.
    pub closed spec fn remaining_spec(&self) -> u32 {
        self.remaining
    }

    /// A fresh run with the whole retry budget.
    pub fn new() -> (r: PlacementProtocol)
        ensures
            r.remaining_spec() == MAX_ATTEMPTS,
    {
        PlacementProtocol { remaining: MAX_ATTEMPTS }
    }

    /// How many attempts may still be reported.
    pub fn attempts_left(&self) -> (r: u32)
        ensures
            r == self.remaining_spec(),
    {
        self.remaining
    }

    /// Record the outcome of one attempt and decide the next step: success
    /// finishes; a clash with budget left asks for another attempt; a clash
    /// on the last attempt gives up with the race-condition error carrying
    /// the clash's error number.
    pub fn record(&mut self, outcome: AttemptOutcome) -> (d: ProtocolStep)
        requires
            old(self).remaining_spec() >= 1,
        ensures
            (final(self).remaining_spec(), d) == protocol_step_spec(
                old(self).remaining_spec(),
                outcome,
            ),
            outcome is Placed ==> d is Finished,
            outcome is Clashed && old(self).remaining_spec() > 1 ==> (d is TryAgain
                && final(self).remaining_spec() == old(self).remaining_spec() - 1),
            outcome matches AttemptOutcome::Clashed(c) ==> (old(self).remaining_spec() == 1 ==> (d
            matches ProtocolStep::GiveUp(e) && e.kind is RaceCondition && e.code == c)),
    {
        match outcome {
            AttemptOutcome::Placed => ProtocolStep::Finished,
            AttemptOutcome::Clashed(code) => {
                if self.remaining <= 1 {
                    self.remaining = 0;
                    ProtocolStep::GiveUp(Error::race_condition(code))
                } else {
                    self.remaining = self.remaining - 1;
                    ProtocolStep::TryAgain
                }
            },
        }
    }
}

/// One sub-range of a standing mapping, as handed to the platform's unmap
/// call.
#[derive(Clone, Copy, Debug, PartialEq, Eq, Structural)]
pub struct Region {
    pub address: usize,
    pub length: usize,
}

/// The byte lengths, widened for summing.
pub open spec fn raw_lengths(lengths: Seq<usize>) -> Seq<int> {
    Seq::new(lengths.len(), |i: int| lengths[i] as int)
}

/// The regions partition `[base, base + total)` by `lengths`, in order.
pub open spec fn regions_partition(r: Seq<Region>, base: int, lengths: Seq<int>) -> bool {
    &&& r.len() == lengths.len()
    &&& forall|i: int|
        0 <= i < r.len() ==> {
            &&& (#[trigger] r[i]).length == lengths[i]
            &&& r[i].address == base + sum_prefix(lengths, i)
        }
}

/// The sub-ranges to hand to the platform's unmap call, one per original
/// view length, in the original order.
///
/// A mapping built from several views appears contiguous to the caller but
/// must be torn down as that many separate unmap calls; the caller supplies
/// the original per-view lengths and this recovers where each sub-range
/// stands.
pub fn unmap_regions(base: usize, lengths: &Vec<usize>) -> (r: Vec<Region>)
    requires
        base + sum_prefix(raw_lengths(lengths@), lengths@.len() as int) <= usize::MAX,
    ensures
        regions_partition(r@, base as int, raw_lengths(lengths@)),
{
    let ghost s = raw_lengths(lengths@);
    let mut regions: Vec<Region> = Vec::new();
    let mut address: usize = base;
    let mut i: usize = 0;
    while i < lengths.len()
        invariant
            i <= lengths@.len(),
            s == raw_lengths(lengths@),
            regions@.len() == i,
            address == base + sum_prefix(s, i as int),
            base + sum_prefix(s, lengths@.len() as int) <= usize::MAX,
            forall|k: int|
                0 <= k < i ==> {
                    &&& (#[trigger] regions@[k]).length == s[k]
                    &&& regions@[k].address == base + sum_prefix(s, k)
                },
        decreases lengths@.len() - i,
    {
        proof {
            lemma_sum_prefix_mono(s, i + 1, lengths@.len() as int);
            lemma_sum_prefix_nonneg(s, i as int);
        }
        let length = lengths[i];
        regions.push(Region { address, length });
        address = address + length;
        i = i + 1;
    }
    regions
}

/// Law: the recovered unmap sub-ranges cover exactly the original mapping —
/// the first begins at its base, each next begins where the previous ends,
/// and the last ends exactly at base plus the total of the supplied lengths.
/// Tearing them all down releases the whole range and touches nothing
/// outside it.
pub proof fn lemma_unmap_partition(r: Seq<Region>, base: int, lengths: Seq<int>)
    requires
        regions_partition(r, base, lengths),
    ensures
        r.len() > 0 ==> r[0].address == base,
        forall|i: int|
            #![trigger r[i]]
            0 <= i < r.len() - 1 ==> r[i].address + r[i].length == r[i + 1].address,
        r.len() > 0 ==> r[r.len() - 1].address + r[r.len() - 1].length == base + sum_prefix(
            lengths,
            lengths.len() as int,
        ),
{
    assert forall|i: int| 0 <= i < r.len() implies #[trigger] sum_prefix(lengths, i + 1)
        == sum_prefix(lengths, i) + r[i].length by {
        assert(sum_prefix(lengths, i + 1) == sum_prefix(lengths, i) + lengths[i]);
    }
}

/// Law: tearing a mapping down with the exact per-view lengths it was
/// planned from recovers exactly the placed sub-ranges — the region walked
/// for the i-th length begins at the base plus the i-th placement's offset
/// and spans the i-th placement's length. Nothing placed is missed and
/// nothing outside the mapping is touched.
pub proof fn lemma_unmap_matches_plan(p: MapPlan, r: Seq<Region>, base: int)
    requires
        p.wf(),
        regions_partition(r, base, p.lengths()),
    ensures
        r.len() == p.placements@.len(),
        forall|i: int|
            0 <= i < r.len() ==> (#[trigger] r[i]).address == base + p.placements@[i].offset
                && r[i].length == p.placements@[i].length,
{
}

/// The first failure among the per-region unmap results, if any.
pub open spec fn first_error(results: Seq<Option<Error>>) -> Option<Error>
    decreases results.len(),
{
    if results.len() == 0 {
        None
    } else {
        match results[0] {
            Some(e) => Some(e),
            None => first_error(results.drop_first()),
        }
    }
}

/// Skipping clean results does not change the first failure.
proof fn lemma_first_error_skip(results: Seq<Option<Error>>, i: int)
    requires
        0 <= i <= results.len(),
        forall|k: int| 0 <= k < i ==> results[k] is None,
    ensures
        first_error(results) == first_error(results.subrange(i, results.len() as int)),
    decreases i,
{
    if i > 0 {
        lemma_first_error_skip(results.drop_first(), i - 1);
        assert(results.drop_first().subrange(i - 1, results.drop_first().len() as int)
            =~= results.subrange(i, results.len() as int));
    } else {
        assert(results.subrange(0, results.len() as int) =~= results);
    }
}

/// The outcome of a whole unmap walk: every sub-range was attempted by the
/// caller, and this reports the first error encountered, if any.
pub fn unmap_outcome(results: &Vec<Option<Error>>) -> (r: Result<(), Error>)
    ensures
        r is Ok <==> first_error(results@) is None,
        r matches Err(e) ==> first_error(results@) == Some(e),
{
    let mut i: usize = 0;
    while i < results.len()
        invariant
            i <= results@.len(),
            forall|k: int| 0 <= k < i ==> results@[k] is None,
        decreases results@.len() - i,
    {
        match results[i] {
            Some(e) => {
                proof {
                    lemma_first_error_skip(results@, i as int);
                    assert(results@.subrange(i as int, results@.len() as int)[0] == results@[
                        i as int
                    ]);
                }
                return Err(e);
            },
            None => {},
        }
        i = i + 1;
    }
    proof {
        lemma_first_error_skip(results@, results@.len() as int);
    }
    Ok(())
}

} // verus!
