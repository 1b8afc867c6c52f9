use sparrow_sym::collector::{CollisionTracker, Detection, Hazard, HazardCollector};
use sparrow_sym::evaluator::{SampleEval, SeparationEvaluator};
use sparrow_sym::symmetric::{Transform, HALF_TURN};

fn tracker() -> CollisionTracker {
    CollisionTracker { bin_weight: 3, item_weights: vec![(1, 1), (2, 2), (7, 5)] }
}

fn item(pk: u64, overlap: u64) -> Detection {
    Detection { hazard: Hazard::Item(pk), overlap }
}

#[test]
fn clear_primary_on_empty_layout() {
    let ct = tracker();
    let mut e = SeparationEvaluator::new(9);
    assert_eq!(e.evaluate_sample(&ct, &vec![], &vec![], None), SampleEval::Clear);
}

#[test]
fn primary_collision_with_clear_mirror() {
    let ct = tracker();
    let mut e = SeparationEvaluator::new_with_symmetric(9, Some(20));
    let r = e.evaluate_sample(&ct, &vec![item(1, 4)], &vec![], None);
    assert_eq!(r, SampleEval::Collision { loss: 4 });
}

#[test]
fn clear_primary_with_mirror_collision() {
    let ct = tracker();
    let mut e = SeparationEvaluator::new_with_symmetric(9, Some(20));
    let r = e.evaluate_sample(&ct, &vec![], &vec![item(2, 3)], None);
    assert_eq!(r, SampleEval::Collision { loss: 6 });
}

#[test]
fn both_sides_collide_losses_add() {
    let ct = tracker();
    let mut e = SeparationEvaluator::new_with_symmetric(9, Some(20));
    let r = e.evaluate_sample(&ct, &vec![item(1, 4)], &vec![item(2, 3)], None);
    assert_eq!(r, SampleEval::Collision { loss: 10 });
}

#[test]
fn mirror_ignored_without_symmetry() {
    let ct = tracker();
    let mut e = SeparationEvaluator::new(9);
    let r = e.evaluate_sample(&ct, &vec![], &vec![item(2, 3)], None);
    assert_eq!(r, SampleEval::Clear);
}

#[test]
fn bound_prunes_larger_loss() {
    let ct = tracker();
    let mut e = SeparationEvaluator::new(9);
    let r = e.evaluate_sample(&ct, &vec![item(7, 2)], &vec![], Some(SampleEval::Collision { loss: 5 }));
    assert_eq!(r, SampleEval::Invalid);
}

#[test]
fn bound_at_exact_loss_is_invalid() {
    let ct = tracker();
    let mut e = SeparationEvaluator::new(9);
    let r = e.evaluate_sample(&ct, &vec![item(7, 1)], &vec![], Some(SampleEval::Collision { loss: 5 }));
    assert_eq!(r, SampleEval::Invalid);
    let r = e.evaluate_sample(&ct, &vec![item(7, 1)], &vec![], Some(SampleEval::Collision { loss: 6 }));
    assert_eq!(r, SampleEval::Collision { loss: 5 });
}

#[test]
fn clear_bound_prunes_everything() {
    let ct = tracker();
    let mut e = SeparationEvaluator::new(9);
    assert_eq!(e.evaluate_sample(&ct, &vec![], &vec![], Some(SampleEval::Clear)), SampleEval::Invalid);
    let r = e.evaluate_sample(&ct, &vec![item(1, 1)], &vec![], Some(SampleEval::Invalid));
    assert_eq!(r, SampleEval::Collision { loss: 1 });
}

#[test]
fn mirror_uses_residual_bound() {
    let ct = tracker();
    let mut e = SeparationEvaluator::new_with_symmetric(9, Some(20));
    let bound = Some(SampleEval::Collision { loss: 10 });
    assert_eq!(e.evaluate_sample(&ct, &vec![item(1, 4)], &vec![item(1, 6)], bound), SampleEval::Invalid);
    assert_eq!(
        e.evaluate_sample(&ct, &vec![item(1, 4)], &vec![item(1, 5)], bound),
        SampleEval::Collision { loss: 9 }
    );
}

#[test]
fn larger_bound_keeps_collision() {
    let ct = tracker();
    let mut e = SeparationEvaluator::new_with_symmetric(9, Some(20));
    let p = vec![item(1, 2)];
    let m = vec![Detection { hazard: Hazard::BinEdge, overlap: 1 }];
    let first = e.evaluate_sample(&ct, &p, &m, Some(SampleEval::Collision { loss: 6 }));
    assert_eq!(first, SampleEval::Collision { loss: 5 });
    assert_eq!(e.evaluate_sample(&ct, &p, &m, Some(SampleEval::Collision { loss: 100 })), first);
    assert_eq!(e.evaluate_sample(&ct, &p, &m, None), first);
}

#[test]
fn self_exclusion_gives_clear() {
    let ct = tracker();
    let mut e = SeparationEvaluator::new_with_symmetric(7, Some(20));
    let r = e.evaluate_sample(&ct, &vec![item(7, 9)], &vec![item(7, 9)], None);
    assert_eq!(r, SampleEval::Clear);
    let mut plain = SeparationEvaluator::new(7);
    assert_eq!(plain.evaluate_sample(&ct, &vec![item(7, 9), item(1, 2)], &vec![], None), SampleEval::Collision { loss: 2 });
}

#[test]
fn repeated_evaluation_is_deterministic() {
    let ct = tracker();
    let mut e = SeparationEvaluator::new_with_symmetric(9, Some(20));
    let p = vec![item(2, 1), Detection { hazard: Hazard::BinEdge, overlap: 2 }];
    let m = vec![item(7, 1)];
    let a = e.evaluate_sample(&ct, &p, &m, None);
    let b = e.evaluate_sample(&ct, &p, &m, None);
    assert_eq!(a, SampleEval::Collision { loss: 13 });
    assert_eq!(a, b);
    assert_eq!(e.n_evals(), 2);
}

#[test]
fn loss_saturates() {
    let ct = tracker();
    let mut e = SeparationEvaluator::new_with_symmetric(9, Some(20));
    let p = vec![item(7, u64::MAX)];
    let m = vec![item(2, u64::MAX)];
    assert_eq!(e.evaluate_sample(&ct, &p, &m, None), SampleEval::Collision { loss: u64::MAX });
}

#[test]
fn collector_weights_and_reload() {
    let ct = tracker();
    assert_eq!(ct.weight(Hazard::BinEdge), 3);
    assert_eq!(ct.weight(Hazard::Item(2)), 2);
    assert_eq!(ct.weight(Hazard::Item(42)), 1);
    let mut c = HazardCollector::new(1);
    c.accept_hazard(item(1, 5));
    assert!(c.is_empty());
    c.accept_hazard(item(2, 5));
    c.accept_hazard(Detection { hazard: Hazard::BinEdge, overlap: 1 });
    assert_eq!(c.loss(&ct), 13);
    c.reload(Some(13));
    assert!(c.is_empty());
    assert_eq!(c.current_pk, 1);
    c.accept_hazard(item(2, 5));
    assert!(!c.early_terminate(&ct));
    c.accept_hazard(item(7, 1));
    assert!(c.early_terminate(&ct));
}

#[test]
fn hazard_reported_twice_counts_once() {
    let ct = tracker();
    let mut e = SeparationEvaluator::new(9);
    let r = e.evaluate_sample(&ct, &vec![item(2, 3), item(2, 4), item(1, 1)], &vec![], None);
    assert_eq!(r, SampleEval::Collision { loss: 7 });
}

#[test]
fn mirror_query_goes_to_mirrored_placement() {
    let plain = SeparationEvaluator::new(9);
    assert_eq!(plain.mirror_query(Transform::new(0, 3, 0)), None);
    let sym = SeparationEvaluator::new_with_symmetric(9, Some(20));
    assert_eq!(sym.mirror_query(Transform::new(0, 3, 0)), Some(Transform { x: 17, y: 0, r: HALF_TURN }));
}
