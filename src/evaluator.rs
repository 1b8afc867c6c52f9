//! The separation evaluator: scores one candidate placement from the hazards
//! the collision-detection engine reports for it, with an optional mirror
//! constraint whose result is composed with the primary one.
use vstd::prelude::*;
use crate::symmetric::{mirror_fits, mirror_of, mirror_transformation, Transform};
use crate::collector::{
    capped, exceeds, kept, lemma_weight_positive, penalty, positive_overlaps, raw_loss,
    CollisionTracker, Detection, Hazard, HazardCollector,
};

verus! {

/// Outcome of evaluating one candidate placement.
#[derive(Clone, Copy, Debug, PartialEq, Eq, Structural)]
pub enum SampleEval {
    /// No hazard at all; the loss is zero.
    Clear,
    /// Some hazards were hit, with this total weighted loss.
    Collision { loss: u64 },
    /// Pruned: the loss reached the bound, so the sample is not better than it.
    Invalid,
}

/// The loss bound that an upper-bound sample installs; `None` is infinite.
pub open spec fn loss_bound_of(upper_bound: Option<SampleEval>) -> Option<u64> {
    match upper_bound {
        Some(SampleEval::Collision { loss }) => Some(loss),
        Some(SampleEval::Clear) => Some(0u64),
        _ => None,
    }
}

/// The loss of one query on the detections `s`, leaving out the item `pk`.
pub open spec fn query_loss(ct: &CollisionTracker, s: Seq<Detection>, pk: u64) -> int {
    capped(raw_loss(ct, kept(s, pk)))
}

/// Classification of one query against a bound.
pub open spec fn classify(ct: &CollisionTracker, s: Seq<Detection>, pk: u64, bound: Option<u64>) -> SampleEval {
    if exceeds(query_loss(ct, s, pk), bound) {
        SampleEval::Invalid
    } else if kept(s, pk).len() == 0 {
        SampleEval::Clear
    } else {
        SampleEval::Collision { loss: query_loss(ct, s, pk) as u64 }
    }
}

/// Composition of a primary result with the result at the mirror position.
pub open spec fn compose(r1: SampleEval, r2: SampleEval) -> SampleEval {
    match (r1, r2) {
        (SampleEval::Invalid, _) => SampleEval::Invalid,
        (_, SampleEval::Invalid) => SampleEval::Invalid,
        (SampleEval::Clear, SampleEval::Clear) => SampleEval::Clear,
        (SampleEval::Clear, SampleEval::Collision { loss }) => SampleEval::Collision { loss },
        (SampleEval::Collision { loss }, SampleEval::Clear) => SampleEval::Collision { loss },
        (SampleEval::Collision { loss: l1 }, SampleEval::Collision { loss: l2 }) => {
            SampleEval::Collision { loss: capped(l1 + l2) as u64 }
        },
    }
}

/// The loss carried by a non-invalid result.
pub open spec fn loss_of(r: SampleEval) -> int {
    match r {
        SampleEval::Collision { loss } => loss as int,
        _ => 0,
    }
}

/// The result of evaluating a sample whose primary query detected `primary`
/// and whose mirror query (used only when `axis` is set) detected `mirror`.
pub open spec fn evaluation(
    ct: &CollisionTracker,
    pk: u64,
    axis: Option<i64>,
    primary: Seq<Detection>,
    mirror: Seq<Detection>,
    upper_bound: Option<SampleEval>,
) -> SampleEval {
    let bound = loss_bound_of(upper_bound);
    let r1 = classify(ct, primary, pk, bound);
    if axis.is_none() || r1 == SampleEval::Invalid {
        r1
    } else {
        let l1 = loss_of(r1);
        match bound {
            Some(b) => if b <= l1 {
                SampleEval::Collision { loss: l1 as u64 }
            } else {
                compose(r1, classify(ct, mirror, pk, Some((b - l1) as u64)))
            },
            None => compose(r1, classify(ct, mirror, pk, None)),
        }
    }
}

/// Evaluates candidate placements of one item against the current layout.
pub struct SeparationEvaluator {
    pub collector: HazardCollector,
    /// Number of evaluations so far (saturating).
    pub n_evals: u64,
    /// Twice the symmetry axis's x-coordinate, when symmetric mode is on.
    pub symmetric_axis_x2: Option<i64>,
}

impl SeparationEvaluator {
    /// An evaluator for the item with placement key `current_pk`, without symmetry.
    pub fn new(current_pk: u64) -> (e: SeparationEvaluator)
        ensures
            e.collector.current_pk == current_pk,
            e.symmetric_axis_x2.is_none(),
            e.n_evals == 0,
    {
        Self::new_with_symmetric(current_pk, None)
    }

    pub fn new_with_symmetric(current_pk: u64, symmetric_axis_x2: Option<i64>) -> (e: SeparationEvaluator)
        ensures
            e.collector.current_pk == current_pk,
            e.symmetric_axis_x2 == symmetric_axis_x2,
            e.n_evals == 0,
    {
        SeparationEvaluator { collector: HazardCollector::new(current_pk), n_evals: 0, symmetric_axis_x2 }
    }

    pub fn n_evals(&self) -> (n: u64)
        ensures
            n == self.n_evals,
    {
        self.n_evals
    }

    /// Where the mirror query of a candidate placement `t` goes: its mirror
    /// across the axis in symmetric mode, none otherwise. The detections found
    /// there are the `mirror` argument of `evaluate_sample`.
    pub fn mirror_query(&self, t: Transform) -> (m: Option<Transform>)
        requires
            self.symmetric_axis_x2 matches Some(a) ==> mirror_fits(t, a as int),
        ensures
            m == match self.symmetric_axis_x2 {
                Some(a) => Some(mirror_of(t, a as int)),
                None => None::<Transform>,
            },
    {
        match self.symmetric_axis_x2 {
            Some(a) => Some(mirror_transformation(t, a)),
            None => None,
        }
    }

    /// Reloads the collector with `bound`, feeds it the detections of one query
    /// and classifies the outcome.
    fn run_query(&mut self, ct: &CollisionTracker, dets: &Vec<Detection>, bound: Option<u64>) -> (r: SampleEval)
        ensures
            r == classify(ct, dets@, old(self).collector.current_pk, bound),
            final(self).collector.current_pk == old(self).collector.current_pk,
            final(self).symmetric_axis_x2 == old(self).symmetric_axis_x2,
            final(self).n_evals == old(self).n_evals,
    {
        let ghost pk = self.collector.current_pk;
        self.collector.reload(bound);
        let mut i: usize = 0;
        while i < dets.len()
            invariant
                0 <= i <= dets@.len(),
                self.collector.current_pk == pk,
                self.collector.loss_bound == bound,
                self.collector.collected@ == kept(dets@.take(i as int), pk),
                self.symmetric_axis_x2 == old(self).symmetric_axis_x2,
                self.n_evals == old(self).n_evals,
            decreases dets@.len() - i,
        {
            proof {
                assert(dets@.take(i + 1).drop_last() =~= dets@.take(i as int));
            }
            self.collector.accept_hazard(dets[i]);
            i = i + 1;
        }
        proof {
            assert(dets@.take(dets@.len() as int) =~= dets@);
        }
        if self.collector.early_terminate(ct) {
            SampleEval::Invalid
        } else if self.collector.is_empty() {
            SampleEval::Clear
        } else {
            SampleEval::Collision { loss: self.collector.loss(ct) }
        }
    }

    /// Evaluates a candidate placement. `primary` holds the hazards that the
    /// collision-detection engine reports at the candidate placement; `mirror`
    /// those it reports at the mirrored placement (consulted only in symmetric
    /// mode). A sample whose loss reaches `upper_bound` is `Invalid`.
    pub fn evaluate_sample(
        &mut self,
        ct: &CollisionTracker,
        primary: &Vec<Detection>,
        mirror: &Vec<Detection>,
        upper_bound: Option<SampleEval>,
    ) -> (r: SampleEval)
        ensures
            r == evaluation(
                ct,
                old(self).collector.current_pk,
                old(self).symmetric_axis_x2,
                primary@,
                mirror@,
                upper_bound,
            ),
            final(self).collector.current_pk == old(self).collector.current_pk,
            final(self).symmetric_axis_x2 == old(self).symmetric_axis_x2,
            final(self).n_evals == if old(self).n_evals < u64::MAX {
                old(self).n_evals + 1
            } else {
                old(self).n_evals as int
            },
    {
        if self.n_evals < u64::MAX {
            self.n_evals = self.n_evals + 1;
        }
        let loss_bound: Option<u64> = match upper_bound {
            Some(SampleEval::Collision { loss }) => Some(loss),
            Some(SampleEval::Clear) => Some(0),
            _ => None,
        };
        let original_result = self.run_query(ct, primary, loss_bound);
        match self.symmetric_axis_x2 {
            None => original_result,
            Some(_) => {
                let orig_loss: u64 = match original_result {
                    SampleEval::Invalid => {
                        return SampleEval::Invalid;
                    },
                    SampleEval::Clear => 0,
                    SampleEval::Collision { loss } => loss,
                };
                let mirror_loss_bound: Option<u64> = match loss_bound {
                    Some(b) => {
                        if b <= orig_loss {
                            return SampleEval::Collision { loss: orig_loss };
                        }
                        Some(b - orig_loss)
                    },
                    None => None,
                };
                let mirror_result = self.run_query(ct, mirror, mirror_loss_bound);
                match (original_result, mirror_result) {
                    (_, SampleEval::Invalid) => SampleEval::Invalid,
                    (SampleEval::Clear, SampleEval::Clear) => SampleEval::Clear,
                    (SampleEval::Clear, SampleEval::Collision { loss }) => SampleEval::Collision { loss },
                    (_, SampleEval::Clear) => SampleEval::Collision { loss: orig_loss },
                    (_, SampleEval::Collision { loss }) => {
                        let total: u128 = orig_loss as u128 + loss as u128;
                        if total > u64::MAX as u128 {
                            SampleEval::Collision { loss: u64::MAX }
                        } else {
                            SampleEval::Collision { loss: total as u64 }
                        }
                    },
                }
            },
        }
    }
}

proof fn lemma_raw_loss_nonneg(ct: &CollisionTracker, s: Seq<Detection>)
    ensures
        raw_loss(ct, s) >= 0,
    decreases s.len(),
{
    if s.len() > 0 {
        lemma_raw_loss_nonneg(ct, s.drop_last());
        lemma_weight_positive(ct, s.last().hazard);
        let w = ct.weight_of(s.last().hazard);
        let o = s.last().overlap as int;
        assert(w * o >= 0) by (nonlinear_arith)
            requires
                w >= 0,
                o >= 0,
        ;
    }
}

proof fn lemma_raw_loss_at_least_len(ct: &CollisionTracker, s: Seq<Detection>)
    requires
        ct.wf(),
        positive_overlaps(s),
    ensures
        raw_loss(ct, s) >= s.len(),
    decreases s.len(),
{
    if s.len() > 0 {
        lemma_raw_loss_at_least_len(ct, s.drop_last());
        lemma_weight_positive(ct, s.last().hazard);
        let w = ct.weight_of(s.last().hazard);
        let o = s.last().overlap as int;
        assert(s[s.len() - 1].wf());
        assert(o >= 1);
        assert(w * o >= 1) by (nonlinear_arith)
            requires
                w >= 1,
                o >= 1,
        ;
        assert(penalty(ct, s.last()) == w * o);
    }
}

proof fn lemma_kept_positive(s: Seq<Detection>, pk: u64)
    requires
        positive_overlaps(s),
    ensures
        positive_overlaps(kept(s, pk)),
    decreases s.len(),
{
    if s.len() > 0 {
        lemma_kept_positive(s.drop_last(), pk);
    }
}

proof fn lemma_kept_only_self(s: Seq<Detection>, pk: u64)
    requires
        forall|i: int| 0 <= i < s.len() ==> s[i].hazard == Hazard::Item(pk),
    ensures
        kept(s, pk).len() == 0,
    decreases s.len(),
{
    if s.len() > 0 {
        lemma_kept_only_self(s.drop_last(), pk);
    }
}

/// Facts about one query that every law below uses: its loss is a valid `u64`,
/// and with positive weights and overlaps it is zero exactly when nothing was kept.
proof fn lemma_query_facts(ct: &CollisionTracker, s: Seq<Detection>, pk: u64)
    ensures
        0 <= query_loss(ct, s, pk) <= u64::MAX,
        kept(s, pk).len() == 0 ==> query_loss(ct, s, pk) == 0,
        ct.wf() && positive_overlaps(s) && kept(s, pk).len() > 0 ==> query_loss(ct, s, pk) > 0,
{
    lemma_raw_loss_nonneg(ct, kept(s, pk));
    if ct.wf() && positive_overlaps(s) {
        lemma_kept_positive(s, pk);
        lemma_raw_loss_at_least_len(ct, kept(s, pk));
    }
}

/// Value law of one query: with positive weights and overlaps, a query that is
/// not pruned is `Clear` exactly when its loss is zero and it collected no
/// hazard; a `Collision` has collected a hazard and has a positive loss.
pub proof fn lemma_value_law(ct: &CollisionTracker, s: Seq<Detection>, pk: u64, bound: Option<u64>)
    requires
        ct.wf(),
        positive_overlaps(s),
    ensures
        classify(ct, s, pk, bound) != SampleEval::Invalid ==> (classify(ct, s, pk, bound)
            == SampleEval::Clear <==> (query_loss(ct, s, pk) == 0 && kept(s, pk).len() == 0)),
        classify(ct, s, pk, bound) is Collision ==> kept(s, pk).len() > 0 && loss_of(
            classify(ct, s, pk, bound),
        ) > 0,
{
    lemma_query_facts(ct, s, pk);
}

/// No hazard was collected by the primary query, nor by the mirror query in
/// symmetric mode.
pub open spec fn no_hazards(pk: u64, axis: Option<i64>, primary: Seq<Detection>, mirror: Seq<Detection>) -> bool {
    kept(primary, pk).len() == 0 && (axis.is_some() ==> kept(mirror, pk).len() == 0)
}

/// Value law of a whole evaluation, in plain and in symmetric mode: with
/// positive weights and overlaps, `Clear` means that no hazard was collected; a
/// result that is not pruned and collected no hazard is `Clear`; a `Collision`
/// has a positive loss and collected a hazard.
pub proof fn lemma_evaluation_value_law(
    ct: &CollisionTracker,
    pk: u64,
    axis: Option<i64>,
    primary: Seq<Detection>,
    mirror: Seq<Detection>,
    upper_bound: Option<SampleEval>,
)
    requires
        ct.wf(),
        positive_overlaps(primary),
        positive_overlaps(mirror),
    ensures
        evaluation(ct, pk, axis, primary, mirror, upper_bound) == SampleEval::Clear ==> no_hazards(
            pk,
            axis,
            primary,
            mirror,
        ),
        evaluation(ct, pk, axis, primary, mirror, upper_bound) != SampleEval::Invalid && no_hazards(
            pk,
            axis,
            primary,
            mirror,
        ) ==> evaluation(ct, pk, axis, primary, mirror, upper_bound) == SampleEval::Clear,
        evaluation(ct, pk, axis, primary, mirror, upper_bound) is Collision ==> loss_of(
            evaluation(ct, pk, axis, primary, mirror, upper_bound),
        ) > 0 && !no_hazards(pk, axis, primary, mirror),
{
    lemma_query_facts(ct, primary, pk);
    lemma_query_facts(ct, mirror, pk);
}

/// `bound1` is no larger than `bound2`; `None` is infinite.
pub open spec fn bound_le(bound1: Option<u64>, bound2: Option<u64>) -> bool {
    match (bound1, bound2) {
        (_, None) => true,
        (None, Some(_)) => false,
        (Some(a), Some(b)) => a <= b,
    }
}

proof fn lemma_classify_monotone(
    ct: &CollisionTracker,
    s: Seq<Detection>,
    pk: u64,
    bound1: Option<u64>,
    bound2: Option<u64>,
)
    requires
        classify(ct, s, pk, bound1) != SampleEval::Invalid,
        bound_le(bound1, bound2),
    ensures
        classify(ct, s, pk, bound2) == classify(ct, s, pk, bound1),
{
}

/// Raising the upper bound never changes a collision: if a sample evaluates
/// to `Collision { loss }` under one bound, it evaluates to the same value under
/// any bound at least as large, in plain and in symmetric mode.
pub proof fn lemma_bound_monotone(
    ct: &CollisionTracker,
    pk: u64,
    axis: Option<i64>,
    primary: Seq<Detection>,
    mirror: Seq<Detection>,
    upper_bound1: Option<SampleEval>,
    upper_bound2: Option<SampleEval>,
    loss: u64,
)
    requires
        evaluation(ct, pk, axis, primary, mirror, upper_bound1) == (SampleEval::Collision { loss }),
        bound_le(loss_bound_of(upper_bound1), loss_bound_of(upper_bound2)),
    ensures
        evaluation(ct, pk, axis, primary, mirror, upper_bound2) == (SampleEval::Collision { loss }),
{
    let b1 = loss_bound_of(upper_bound1);
    let b2 = loss_bound_of(upper_bound2);
    lemma_query_facts(ct, primary, pk);
    lemma_query_facts(ct, mirror, pk);
    let r1 = classify(ct, primary, pk, b1);
    assert(r1 != SampleEval::Invalid);
    lemma_classify_monotone(ct, primary, pk, b1, b2);
    if axis.is_some() {
        let l1 = loss_of(r1);
        assert(0 <= l1 <= u64::MAX);
        if let Some(a) = b1 {
            assert(l1 < a);
            let m1 = Some((a - l1) as u64);
            let m2 = match b2 {
                Some(b) => Some((b - l1) as u64),
                None => None,
            };
            assert(classify(ct, mirror, pk, m1) != SampleEval::Invalid);
            lemma_classify_monotone(ct, mirror, pk, m1, m2);
        } else {
            assert(classify(ct, mirror, pk, None) != SampleEval::Invalid);
        }
    }
}

/// In symmetric mode and without a bound, a sample is `Clear` exactly when
/// neither the primary nor the mirror query collects a hazard.
pub proof fn lemma_symmetric_clear(
    ct: &CollisionTracker,
    pk: u64,
    axis: i64,
    primary: Seq<Detection>,
    mirror: Seq<Detection>,
)
    requires
        ct.wf(),
        positive_overlaps(primary),
        positive_overlaps(mirror),
    ensures
        (evaluation(ct, pk, Some(axis), primary, mirror, None) == SampleEval::Clear) <==> (kept(
            primary,
            pk,
        ).len() == 0 && kept(mirror, pk).len() == 0),
{
    lemma_query_facts(ct, primary, pk);
    lemma_query_facts(ct, mirror, pk);
}

/// A placement that only meets the item being moved (its own stored slot) is
/// `Clear`, unless the bound is zero, in plain and in symmetric mode.
pub proof fn lemma_self_exclusion(
    ct: &CollisionTracker,
    pk: u64,
    axis: Option<i64>,
    primary: Seq<Detection>,
    mirror: Seq<Detection>,
    upper_bound: Option<SampleEval>,
)
    requires
        forall|i: int| 0 <= i < primary.len() ==> primary[i].hazard == Hazard::Item(pk),
        forall|i: int| 0 <= i < mirror.len() ==> mirror[i].hazard == Hazard::Item(pk),
        loss_bound_of(upper_bound) != Some(0u64),
    ensures
        evaluation(ct, pk, axis, primary, mirror, upper_bound) == SampleEval::Clear,
{
    lemma_kept_only_self(primary, pk);
    lemma_kept_only_self(mirror, pk);
    lemma_query_facts(ct, primary, pk);
    lemma_query_facts(ct, mirror, pk);
}

/// The result depends only on the weights, the item's key, the axis, the
/// detections and the bound: two evaluators for the same key and axis agree,
/// whatever scratch state (collected hazards, previous bound, call count) they hold.
pub proof fn lemma_deterministic(
    e1: &SeparationEvaluator,
    e2: &SeparationEvaluator,
    ct: &CollisionTracker,
    primary: Seq<Detection>,
    mirror: Seq<Detection>,
    upper_bound: Option<SampleEval>,
)
    requires
        e1.collector.current_pk == e2.collector.current_pk,
        e1.symmetric_axis_x2 == e2.symmetric_axis_x2,
    ensures
        evaluation(ct, e1.collector.current_pk, e1.symmetric_axis_x2, primary, mirror, upper_bound)
            == evaluation(ct, e2.collector.current_pk, e2.symmetric_axis_x2, primary, mirror, upper_bound),
{
}

} // verus!
