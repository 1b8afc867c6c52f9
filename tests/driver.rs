use sparrow_sym::cli::{CliError, MainCli, TimeLimits};
use sparrow_sym::driver::{
    is_better, symmetric_axis, Action, Driver, DriverConfig, Event, ImprovementLog, Phase, SolutionScore,
};

fn config(symmetric: bool, warm_start: bool) -> DriverConfig {
    DriverConfig { exploration_time: 60, compression_time: 15, symmetric, warm_start }
}

#[test]
fn cold_start_runs_all_phases() {
    let mut d = Driver::new(config(false, false));
    assert_eq!(d.step(Event::Start), Some(Action::Construct));
    assert_eq!(d.step(Event::StartReady { strip_width: 40 }), Some(Action::Explore { time_limit: 60, axis_x2: None }));
    assert_eq!(d.step(Event::ExplorationDone), Some(Action::Compress { time_limit: 15, axis_x2: None }));
    assert_eq!(d.step(Event::CompressionDone), Some(Action::ReportFinal));
    assert_eq!(d.step(Event::Reported), None);
    assert_eq!(d.phase, Phase::Finished);
}

#[test]
fn warm_start_restores_and_sets_axis() {
    let mut d = Driver::new(config(true, true));
    assert_eq!(d.step(Event::Start), Some(Action::Restore));
    assert_eq!(d.phase, Phase::Restoring);
    assert_eq!(d.step(Event::StartReady { strip_width: 41 }), Some(Action::Explore { time_limit: 60, axis_x2: Some(41) }));
    assert_eq!(d.step(Event::ExplorationDone), Some(Action::Compress { time_limit: 15, axis_x2: Some(41) }));
}

#[test]
fn out_of_order_event_changes_nothing() {
    let mut d = Driver::new(config(false, false));
    assert_eq!(d.step(Event::ExplorationDone), None);
    assert_eq!(d.phase, Phase::Init);
    assert_eq!(symmetric_axis(true, 11), Some(11));
    assert_eq!(symmetric_axis(false, 10), None);
}

#[test]
fn exploration_log_keeps_only_improvements() {
    let mut log = ImprovementLog::new();
    assert_eq!(log.handoff(), None);
    assert!(log.offer(SolutionScore { strip_height: 100, n_placed: 10 }));
    assert!(!log.offer(SolutionScore { strip_height: 100, n_placed: 10 }));
    assert!(!log.offer(SolutionScore { strip_height: 120, n_placed: 12 }));
    assert!(log.offer(SolutionScore { strip_height: 100, n_placed: 11 }));
    assert!(log.offer(SolutionScore { strip_height: 90, n_placed: 3 }));
    assert_eq!(log.solutions.len(), 3);
    assert_eq!(log.handoff(), Some(SolutionScore { strip_height: 90, n_placed: 3 }));
    assert!(is_better(SolutionScore { strip_height: 1, n_placed: 0 }, SolutionScore { strip_height: 2, n_placed: 9 }));
}

fn cli(g: Option<u64>, e: Option<u64>, c: Option<u64>) -> MainCli {
    MainCli {
        input: String::from("in.json"),
        global_time: g,
        exploration: e,
        compression: c,
        early_termination: false,
        rng_seed: None,
        symmetric: false,
    }
}

#[test]
fn time_flags_checked() {
    assert_eq!(cli(Some(60), None, None).time_limits(), Ok(TimeLimits::Global(60)));
    assert_eq!(
        cli(None, Some(40), Some(20)).time_limits(),
        Ok(TimeLimits::Phased { exploration: 40, compression: 20 })
    );
    assert_eq!(cli(None, None, None).time_limits(), Ok(TimeLimits::Unspecified));
    assert_eq!(cli(Some(60), Some(40), None).time_limits(), Err(CliError::ConflictingTimeFlags));
    assert_eq!(cli(None, None, Some(20)).time_limits(), Err(CliError::MissingPartnerFlag));
}

#[test]
fn warm_start_without_time_hands_back_input() {
    let start = SolutionScore { strip_height: 75, n_placed: 12 };
    let mut d = Driver::new(DriverConfig { exploration_time: 0, compression_time: 0, symmetric: false, warm_start: true });
    assert_eq!(d.step(Event::Start), Some(Action::Restore));
    assert_eq!(d.step(Event::StartReady { strip_width: 30 }), Some(Action::Explore { time_limit: 0, axis_x2: None }));
    let mut log = ImprovementLog::new();
    assert!(log.offer(start));
    assert_eq!(log.handoff(), Some(start));
    assert_eq!(d.step(Event::ExplorationDone), Some(Action::Compress { time_limit: 0, axis_x2: None }));
}
