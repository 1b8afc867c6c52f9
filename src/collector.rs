//! Hazards, per-hazard weights, and the collector that accumulates the hazards
//! one query detects, with self-exclusion and a loss bound.
use vstd::prelude::*;

verus! {

/// Something a candidate placement can collide with.
#[derive(Clone, Copy, Debug, PartialEq, Eq, Structural)]
pub enum Hazard {
    /// The strip boundary.
    BinEdge,
    /// The placed item with this placement key.
    Item(u64),
}

/// One hazard reported by the collision-detection engine, with the overlap
/// amount that the geometry gives for it.
#[derive(Clone, Copy, Debug, PartialEq, Eq, Structural)]
pub struct Detection {
    pub hazard: Hazard,
    pub overlap: u64,
}

impl Detection {
    /// A valid detection reports a real overlap: the geometry's overlap amount
    /// is positive for any actual overlap.
    pub open spec fn wf(self) -> bool {
        self.overlap > 0
    }
}

/// Every detection of `s` is valid.
pub open spec fn positive_overlaps(s: Seq<Detection>) -> bool {
    forall|i: int| 0 <= i < s.len() ==> #[trigger] s[i].wf()
}

/// The largest loss that is represented; sums beyond it saturate here.
pub open spec fn capped(x: int) -> int {
    if x > u64::MAX { u64::MAX as int } else { x }
}

/// Weights that scale each hazard's contribution to the loss. An item with no
/// entry of its own has the initial weight 1.
pub struct CollisionTracker {
    pub bin_weight: u64,
    /// Pairs of placement key and weight; the first pair of a key counts.
    pub item_weights: Vec<(u64, u64)>,
}

/// Weight of item `pk` among the pairs from index `i` on.
pub open spec fn weight_from(s: Seq<(u64, u64)>, pk: u64, i: int) -> int
    decreases s.len() - i,
{
    if i < 0 || i >= s.len() {
        1
    } else if s[i].0 == pk {
        s[i].1 as int
    } else {
        weight_from(s, pk, i + 1)
    }
}

impl CollisionTracker {
    /// All weights are strictly positive.
    pub open spec fn wf(&self) -> bool {
        &&& self.bin_weight > 0
        &&& forall|i: int| 0 <= i < self.item_weights@.len() ==> self.item_weights@[i].1 > 0
    }

    pub open spec fn weight_of(&self, h: Hazard) -> int {
        match h {
            Hazard::BinEdge => self.bin_weight as int,
            Hazard::Item(pk) => weight_from(self.item_weights@, pk, 0),
        }
    }

    /// Looks up the weight of a hazard.
    pub fn weight(&self, h: Hazard) -> (w: u64)
        ensures
            w == self.weight_of(h),
    {
        match h {
            Hazard::BinEdge => self.bin_weight,
            Hazard::Item(pk) => {
                let mut i: usize = 0;
                while i < self.item_weights.len()
                    invariant
                        0 <= i <= self.item_weights@.len(),
                        h == Hazard::Item(pk),
                        weight_from(self.item_weights@, pk, 0) == weight_from(self.item_weights@, pk, i as int),
                    decreases self.item_weights@.len() - i,
                {
                    if self.item_weights[i].0 == pk {
                        assert(weight_from(self.item_weights@, pk, i as int)
                            == self.item_weights@[i as int].1);
                        return self.item_weights[i].1;
                    }
                    i = i + 1;
                }
                1
            }
        }
    }
}

/// Weights are never negative, and positive weights give every hazard a weight
/// of at least 1.
pub proof fn lemma_weight_positive(ct: &CollisionTracker, h: Hazard)
    ensures
        ct.weight_of(h) >= 0,
        ct.wf() ==> ct.weight_of(h) >= 1,
{
    if let Hazard::Item(pk) = h {
        lemma_weight_from_positive(ct, pk, 0);
    }
}

proof fn lemma_weight_from_positive(ct: &CollisionTracker, pk: u64, i: int)
    ensures
        weight_from(ct.item_weights@, pk, i) >= 0,
        ct.wf() ==> weight_from(ct.item_weights@, pk, i) >= 1,
    decreases ct.item_weights@.len() - i,
{
    if 0 <= i < ct.item_weights@.len() && ct.item_weights@[i].0 != pk {
        lemma_weight_from_positive(ct, pk, i + 1);
    }
}

/// Some detection of `s` is of hazard `h`.
pub open spec fn has_hazard(s: Seq<Detection>, h: Hazard) -> bool {
    exists|i: int| 0 <= i < s.len() && #[trigger] s[i].hazard == h
}

/// The detections of `s` that are collected: each hazard once (its first
/// detection), and never the item `pk` itself.
pub open spec fn kept(s: Seq<Detection>, pk: u64) -> Seq<Detection>
    decreases s.len(),
{
    if s.len() == 0 {
        Seq::empty()
    } else if s.last().hazard == Hazard::Item(pk) || has_hazard(kept(s.drop_last(), pk), s.last().hazard) {
        kept(s.drop_last(), pk)
    } else {
        kept(s.drop_last(), pk).push(s.last())
    }
}

/// Weighted overlap of one detection.
pub open spec fn penalty(ct: &CollisionTracker, d: Detection) -> int {
    ct.weight_of(d.hazard) * d.overlap
}

/// The exact (unbounded) loss of a sequence of detections.
pub open spec fn raw_loss(ct: &CollisionTracker, s: Seq<Detection>) -> int
    decreases s.len(),
{
    if s.len() == 0 {
        0
    } else {
        raw_loss(ct, s.drop_last()) + penalty(ct, s.last())
    }
}

/// Whether a loss reaches the bound; `None` is an infinite bound.
pub open spec fn exceeds(loss: int, bound: Option<u64>) -> bool {
    match bound {
        Some(b) => loss >= b,
        None => false,
    }
}

/// Per-query scratch state: the hazards collected so far, the bound of this
/// query, and the placement key that is never collected.
pub struct HazardCollector {
    pub loss_bound: Option<u64>,
    pub current_pk: u64,
    pub collected: Vec<Detection>,
}

impl HazardCollector {
    pub fn new(current_pk: u64) -> (c: HazardCollector)
        ensures
            c.current_pk == current_pk,
            c.loss_bound.is_none(),
            c.collected@.len() == 0,
    {
        HazardCollector { loss_bound: None, current_pk, collected: Vec::new() }
    }

    /// Empties the collector and installs a new bound; the key stays.
    pub fn reload(&mut self, loss_bound: Option<u64>)
        ensures
            final(self).collected@.len() == 0,
            final(self).loss_bound == loss_bound,
            final(self).current_pk == old(self).current_pk,
    {
        self.collected.clear();
        self.loss_bound = loss_bound;
    }

    /// Whether hazard `h` is already collected.
    pub fn contains(&self, h: Hazard) -> (b: bool)
        ensures
            b == has_hazard(self.collected@, h),
    {
        let mut i: usize = 0;
        while i < self.collected.len()
            invariant
                0 <= i <= self.collected@.len(),
                forall|j: int| 0 <= j < i ==> self.collected@[j].hazard != h,
            decreases self.collected@.len() - i,
        {
            if self.collected[i].hazard == h {
                assert(self.collected@[i as int].hazard == h);
                return true;
            }
            i = i + 1;
        }
        false
    }

    /// Collects a detected hazard, unless it is the item being placed or is
    /// already collected (each hazard counts once).
    pub fn accept_hazard(&mut self, d: Detection)
        ensures
            final(self).loss_bound == old(self).loss_bound,
            final(self).current_pk == old(self).current_pk,
            final(self).collected@ == (if d.hazard == Hazard::Item(old(self).current_pk) || has_hazard(
                old(self).collected@,
                d.hazard,
            ) {
                old(self).collected@
            } else {
                old(self).collected@.push(d)
            }),
    {
        if d.hazard != Hazard::Item(self.current_pk) && !self.contains(d.hazard) {
            self.collected.push(d);
        }
    }

    pub fn is_empty(&self) -> (b: bool)
        ensures
            b == (self.collected@.len() == 0),
    {
        self.collected.len() == 0
    }

    /// Total weighted overlap of the collected hazards, saturating at `u64::MAX`.
    pub fn loss(&self, ct: &CollisionTracker) -> (l: u64)
        ensures
            l == capped(raw_loss(ct, self.collected@)),
    {
        let ghost s = self.collected@;
        let mut acc: u64 = 0;
        let mut i: usize = 0;
        while i < self.collected.len()
            invariant
                s == self.collected@,
                0 <= i <= s.len(),
                acc == capped(raw_loss(ct, s.take(i as int))),
            decreases s.len() - i,
        {
            let d = self.collected[i];
            let w = ct.weight(d.hazard);
            let wp: u128 = w as u128;
            let op: u128 = d.overlap as u128;
            proof {
                assert(s.take(i + 1).drop_last() =~= s.take(i as int));
                assert(0 <= wp * op <= 0xffff_ffff_ffff_ffff * 0xffff_ffff_ffff_ffff) by (nonlinear_arith)
                    requires
                        0 <= wp <= 0xffff_ffff_ffff_ffff,
                        0 <= op <= 0xffff_ffff_ffff_ffff,
                ;
            }
            let p: u128 = wp * op;
            let term: u128 = if p > u64::MAX as u128 { u64::MAX as u128 } else { p };
            let sum: u128 = acc as u128 + term;
            acc = if sum > u64::MAX as u128 { u64::MAX } else { sum as u64 };
            i = i + 1;
        }
        proof {
            assert(s.take(s.len() as int) =~= s);
        }
        acc
    }

    /// Whether the loss collected so far already reaches the bound.
    pub fn early_terminate(&self, ct: &CollisionTracker) -> (b: bool)
        ensures
            b == exceeds(capped(raw_loss(ct, self.collected@)), self.loss_bound),
    {
        let l = self.loss(ct);
        match self.loss_bound {
            Some(bound) => l >= bound,
            None => false,
        }
    }
}

} // verus!
