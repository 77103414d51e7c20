use semi1d::doping;
use semi1d::roots::{bisect_replace, bisect_step, check_bracket, BisectStep, Replace};
use semi1d::steady::{check_newton_budget, newton_step, NewtonStep};
use semi1d::tridiag::{check_apply_dims, check_solve_dims};
use semi1d::SimError;

fn bisection(lo: f64, hi: f64, f: impl Fn(f64) -> f64, xtol: f64, ftol: f64, max_iter: usize) -> (Option<f64>, usize) {
    let (mut lo, mut hi) = (lo, hi);
    let (mut flo, mut fhi) = (f(lo), f(hi));
    if check_bracket(flo * fhi > 0.0).is_err() {
        return (None, 0);
    }
    let mut iter: usize = 0;
    loop {
        let mid = (lo + hi) / 2.0;
        let width_ok = ((hi - lo) / mid).abs() < xtol;
        let spread_ok = (fhi - flo).abs() < ftol;
        match bisect_step(iter, max_iter, width_ok, spread_ok) {
            BisectStep::Exhausted => return (None, iter),
            BisectStep::Accept => return (Some(mid), iter),
            BisectStep::Bisect => {}
        }
        let fmid = f(mid);
        match bisect_replace(fmid * flo > 0.0, fmid * fhi > 0.0) {
            Replace::Lower => {
                lo = mid;
                flo = fmid;
            }
            Replace::Upper => {
                hi = mid;
                fhi = fmid;
            }
            Replace::Neither => {}
        }
        iter += 1;
    }
}

#[test]
fn bisection_cos_converges() {
    let (root, iters) = bisection(0.0, std::f64::consts::PI, f64::cos, 1e-9, 1e-8, 100);
    let root = root.expect("bisection must converge");
    assert!((root - std::f64::consts::FRAC_PI_2).abs() < 1e-8);
    assert!(iters <= 40);
}

#[test]
fn bisection_runs_out_of_budget() {
    let (root, iters) = bisection(0.0, std::f64::consts::PI, f64::cos, 1e-9, 1e-8, 5);
    assert_eq!(root, None);
    assert_eq!(iters, 5);
}

#[test]
fn bisect_step_rules() {
    assert_eq!(bisect_step(0, 10, true, true), BisectStep::Accept);
    assert_eq!(bisect_step(0, 10, true, false), BisectStep::Bisect);
    assert_eq!(bisect_step(0, 10, false, true), BisectStep::Bisect);
    assert_eq!(bisect_step(10, 10, true, true), BisectStep::Exhausted);
    assert_eq!(bisect_step(0, 0, false, false), BisectStep::Exhausted);
}

#[test]
fn bisect_replace_rules() {
    assert_eq!(bisect_replace(true, true), Replace::Lower);
    assert_eq!(bisect_replace(true, false), Replace::Lower);
    assert_eq!(bisect_replace(false, true), Replace::Upper);
    assert_eq!(bisect_replace(false, false), Replace::Neither);
}

#[test]
fn newton_needs_three_updates_to_converge() {
    assert_eq!(newton_step(0, 10, true, true), Ok(NewtonStep::Continue));
    assert_eq!(newton_step(1, 10, true, true), Ok(NewtonStep::Continue));
    assert_eq!(newton_step(2, 10, true, true), Ok(NewtonStep::Converged));
}

#[test]
fn newton_needs_both_tolerances() {
    assert_eq!(newton_step(5, 10, true, false), Ok(NewtonStep::Continue));
    assert_eq!(newton_step(5, 10, false, true), Ok(NewtonStep::Continue));
}

#[test]
fn newton_diverges_on_last_update() {
    assert_eq!(newton_step(9, 10, false, true), Err(SimError::Diverged));
    assert_eq!(newton_step(9, 10, true, true), Ok(NewtonStep::Converged));
    assert_eq!(newton_step(0, 1, true, true), Err(SimError::Diverged));
}

#[test]
fn tridiag_dimension_rules() {
    assert_eq!(check_apply_dims(4, 4, 4, 4), Ok(()));
    assert_eq!(check_apply_dims(3, 4, 4, 4), Err(SimError::DimensionMismatch));
    assert_eq!(check_apply_dims(4, 4, 5, 4), Err(SimError::DimensionMismatch));
    assert_eq!(check_apply_dims(1, 1, 1, 1), Err(SimError::DimensionMismatch));
    assert_eq!(check_solve_dims(4, 4, 4, 4, 4), Ok(()));
    assert_eq!(check_solve_dims(4, 4, 4, 3, 4), Err(SimError::DimensionMismatch));
    assert_eq!(check_solve_dims(4, 3, 4, 4, 4), Err(SimError::DimensionMismatch));
}

#[test]
fn dopant_charge_signs() {
    assert_eq!(doping::Types::Acceptor.charge_sign(), -1);
    assert_eq!(doping::Types::Donor.charge_sign(), 1);
}

#[test]
fn bisection_refuses_interval_without_sign_change() {
    let (root, iters) = bisection(0.0, 1.0, f64::cos, 1e-9, 1e-8, 100);
    assert_eq!(root, None);
    assert_eq!(iters, 0);
}

#[test]
fn check_bracket_rules() {
    assert_eq!(check_bracket(true), Err(SimError::RootNotFound));
    assert_eq!(check_bracket(false), Ok(()));
}

#[test]
fn newton_budget_rules() {
    assert_eq!(check_newton_budget(0), Err(SimError::Diverged));
    assert_eq!(check_newton_budget(1), Ok(()));
    assert_eq!(check_newton_budget(500), Ok(()));
}
