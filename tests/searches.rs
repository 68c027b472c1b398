use becker_irr_rs::bisect::{guess_is_a, narrow_enough, BisectStart, BisectStep, Bisection};
use becker_irr_rs::bounds::{BoundSearch, BoundStart, BoundStep, Direction};
use becker_irr_rs::screen::{screen, Screen, Shortcut};
use becker_irr_rs::{BeckerError, IrrConfig};
use std::cmp::Ordering::{Equal, Greater, Less};

const BOUNDS: &str = "Could not find initial bounds";
const BISECTION: &str = "Binary search did not converge";

fn obt(earnings: &[f64], disc_rate: f64, becker_irr: f64) -> f64 {
    if earnings.is_empty() {
        return 0.0;
    }
    let mut balance = earnings[0];
    for &e in &earnings[1..] {
        balance = balance * if balance < 0.0 { 1.0 + becker_irr } else { 1.0 + disc_rate } + e;
    }
    balance
}

// Runs a whole computation: the arithmetic in double precision, every
// decision through the library.
fn solve(earnings: &[f64], disc: f64, guess: f64, decimals: i32) -> Result<f64, BeckerError> {
    let signs: Vec<_> = earnings.iter().map(|e| e.partial_cmp(&0.0)).collect();
    let config = match screen(&signs, disc.partial_cmp(&-1.0), decimals)? {
        Screen::Done(Shortcut::Zero) => return Ok(0.0),
        Screen::Done(Shortcut::PosInfinity) => return Ok(f64::INFINITY),
        Screen::Done(Shortcut::NegInfinity) => return Ok(f64::NEG_INFINITY),
        Screen::Solve(config) => config,
    };
    let tol = 10.0f64.powi(-(config.decimals as i32));
    let mut prev = obt(earnings, disc, guess);
    let bound = match BoundSearch::start(&config, prev.abs().partial_cmp(&tol), prev.partial_cmp(&0.0)) {
        BoundStart::AtGuess => guess,
        BoundStart::Failed(e) => return Err(e),
        BoundStart::Search(mut search) => {
            let mut step = config.init_increment_hundredths as f64 / 100.0;
            let mut candidate = guess;
            loop {
                candidate = match search.direction {
                    Direction::Down => candidate - step,
                    Direction::Up => candidate + step,
                };
                let next = obt(earnings, disc, candidate);
                match search.observe(next.partial_cmp(&0.0), next.partial_cmp(&prev)) {
                    BoundStep::Found => break candidate,
                    BoundStep::Failed(e) => return Err(e),
                    BoundStep::Continue { double_step } => {
                        if double_step {
                            step *= 2.0;
                        }
                        prev = next;
                    }
                }
            }
        }
    };
    let (mut a, mut b) = if guess_is_a(obt(earnings, disc, guess).partial_cmp(&0.0)) {
        (guess, bound)
    } else {
        (bound, guess)
    };
    let mut bisection = match Bisection::start(&config, (a - b).abs().partial_cmp(&tol)) {
        BisectStart::Tight => return Ok((a + b) / 2.0),
        BisectStart::Failed(e) => return Err(e),
        BisectStart::Search(s) => s,
    };
    loop {
        let mid = (a + b) / 2.0;
        if narrow_enough((a - b).abs().partial_cmp(&tol)) {
            return Ok(mid);
        }
        let balance = obt(earnings, disc, mid);
        match bisection.observe(balance.abs().partial_cmp(&tol), balance.partial_cmp(&0.0)) {
            BisectStep::Accept => return Ok(mid),
            BisectStep::ReplaceA => a = mid,
            BisectStep::ReplaceB => b = mid,
            BisectStep::Failed(e) => return Err(e),
        }
    }
}

#[test]
fn bound_search_start() {
    let config = IrrConfig::default();
    assert_eq!(BoundSearch::start(&config, Some(Less), Some(Greater)), BoundStart::AtGuess);
    assert_eq!(
        BoundSearch::start(&config, Some(Greater), Some(Less)),
        BoundStart::Search(BoundSearch { direction: Direction::Down, taken: 0, max_iterations: 50 })
    );
    assert_eq!(
        BoundSearch::start(&config, Some(Equal), Some(Greater)),
        BoundStart::Search(BoundSearch { direction: Direction::Up, taken: 0, max_iterations: 50 })
    );
    assert_eq!(
        BoundSearch::start(&config, None, None),
        BoundStart::Search(BoundSearch { direction: Direction::Up, taken: 0, max_iterations: 50 })
    );
    let empty = IrrConfig { max_iterations: 0, ..config };
    assert_eq!(
        BoundSearch::start(&empty, Some(Greater), Some(Less)),
        BoundStart::Failed(BeckerError::MaxIterationsReached(BOUNDS))
    );
}

#[test]
fn bound_search_steps() {
    let mut down = BoundSearch { direction: Direction::Down, taken: 0, max_iterations: 50 };
    assert_eq!(down.observe(Some(Less), Some(Less)), BoundStep::Continue { double_step: true });
    assert_eq!(down.observe(Some(Less), Some(Greater)), BoundStep::Continue { double_step: false });
    assert_eq!(down.observe(Some(Less), None), BoundStep::Continue { double_step: false });
    assert_eq!(down.taken, 3);
    assert_eq!(down.observe(None, Some(Less)), BoundStep::Continue { double_step: true });
    assert_eq!(down.observe(Some(Equal), Some(Greater)), BoundStep::Found);
    assert_eq!(down.observe(Some(Greater), Some(Greater)), BoundStep::Found);
    assert_eq!(down.taken, 4);

    let mut up = BoundSearch { direction: Direction::Up, taken: 0, max_iterations: 50 };
    assert_eq!(up.observe(Some(Greater), Some(Greater)), BoundStep::Continue { double_step: true });
    assert_eq!(up.observe(Some(Greater), Some(Less)), BoundStep::Continue { double_step: false });
    assert_eq!(up.observe(Some(Equal), Some(Less)), BoundStep::Found);
    assert_eq!(up.observe(Some(Less), Some(Less)), BoundStep::Found);
    assert_eq!(up.taken, 2);
}

#[test]
fn bound_search_runs_out_after_its_budget() {
    let mut search = BoundSearch { direction: Direction::Up, taken: 0, max_iterations: 50 };
    for _ in 0..49 {
        assert!(matches!(search.observe(Some(Greater), Some(Equal)), BoundStep::Continue { .. }));
    }
    assert_eq!(
        search.observe(Some(Greater), Some(Equal)),
        BoundStep::Failed(BeckerError::MaxIterationsReached(BOUNDS))
    );
}

#[test]
fn bisection_steps() {
    let config = IrrConfig::with_decimals(6);
    assert_eq!(Bisection::start(&config, Some(Less)), BisectStart::Tight);
    assert_eq!(
        Bisection::start(&config, Some(Equal)),
        BisectStart::Search(Bisection { taken: 0, max_iterations: 50 })
    );
    assert_eq!(
        Bisection::start(&IrrConfig { max_iterations: 0, ..config }, Some(Greater)),
        BisectStart::Failed(BeckerError::MaxIterationsReached(BISECTION))
    );
    assert!(narrow_enough(Some(Less)));
    assert!(narrow_enough(Some(Equal)));
    assert!(!narrow_enough(Some(Greater)));
    assert!(!narrow_enough(None));
    assert!(guess_is_a(Some(Less)));
    assert!(!guess_is_a(Some(Equal)));
    assert!(!guess_is_a(None));

    let mut b = Bisection { taken: 0, max_iterations: 50 };
    assert_eq!(b.observe(Some(Greater), Some(Less)), BisectStep::ReplaceA);
    assert_eq!(b.observe(Some(Equal), Some(Greater)), BisectStep::ReplaceB);
    assert_eq!(b.observe(None, None), BisectStep::ReplaceB);
    assert_eq!(b.observe(Some(Less), Some(Less)), BisectStep::Accept);
    assert_eq!(b.taken, 3);
}

#[test]
fn bisection_runs_out_after_its_budget() {
    let mut b = Bisection { taken: 0, max_iterations: 50 };
    for _ in 0..49 {
        assert!(matches!(b.observe(Some(Greater), Some(Less)), BisectStep::ReplaceA));
    }
    assert_eq!(
        b.observe(Some(Greater), Some(Less)),
        BisectStep::Failed(BeckerError::MaxIterationsReached(BISECTION))
    );
}

#[test]
fn level_annuity_converges() {
    let earnings = [-1000.0, 300.0, 300.0, 300.0, 300.0];
    let r = solve(&earnings, 0.0, 0.1, 6).unwrap();
    assert!((r - 0.0771384729538).abs() <= 1e-6);
    assert!(obt(&earnings, 0.0, r).abs() < 1e-2);
    let tight = solve(&earnings, 0.0, 0.1, 10).unwrap();
    assert!(obt(&earnings, 0.0, tight).abs() < 1e-6);
    assert!((tight - r).abs() <= 1e-6);
}

#[test]
fn whole_computation_shortcuts() {
    assert_eq!(solve(&[100.0], 0.3, -2.0, 2), Ok(f64::INFINITY));
    assert_eq!(solve(&[-100.0], 0.3, 0.5, 2), Ok(f64::NEG_INFINITY));
    assert_eq!(solve(&[0.0, 0.0, 0.0], 0.0, 0.1, 6), Ok(0.0));
    assert_eq!(solve(&[], 0.0, 0.1, 6), Err(BeckerError::EmptyEarnings));
    assert_eq!(
        solve(&[-1.0, 2.0], -1.5, 0.1, 6),
        Err(BeckerError::InvalidInput("Invalid discount rate or decimals"))
    );
}

#[test]
fn positive_earnings_never_bracket_a_root() {
    // A balance that never turns negative grows at the discount rate alone,
    // so no candidate rate moves it across zero.
    assert_eq!(
        solve(&[1.0, 1.0, 1.0], 0.05, 0.1, 6),
        Err(BeckerError::MaxIterationsReached(BOUNDS))
    );
}
