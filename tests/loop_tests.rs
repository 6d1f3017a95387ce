use speedtest_daemon::limit::RunLimit;
use speedtest_daemon::mode::{same_text, Mode};
use speedtest_daemon::sample::{Field, Measurement, SampleError};
use speedtest_daemon::sampler::{Outcome, Sampler, Step};

fn good(t: i64) -> Result<Measurement<u32>, SampleError> {
    Ok(Measurement { timestamp: t, download: 1, upload: 2, ping: 3, bytes_sent: 4, bytes_received: 5 })
}

/// Drives the loop with good samples; returns tool runs and inserts.
fn drive(limit: RunLimit, max_cycles: u32) -> (u32, u32, bool) {
    let mut s = Sampler::new(limit, 5000);
    let mut runs = 0;
    let mut inserts = 0;
    let mut cycles = 0;
    while cycles < max_cycles {
        if s.next_step() == Step::Stop {
            return (runs, inserts, true);
        }
        runs += 1;
        match s.on_sample(good(runs as i64)) {
            Outcome::Store(_) => inserts += 1,
            Outcome::Abort(_) => panic!("good sample aborted"),
        }
        assert_eq!(s.on_stored(), 5000);
        cycles += 1;
    }
    (runs, inserts, false)
}

#[test]
fn run_flag_values() {
    assert_eq!(RunLimit::from_flag(-1), RunLimit::Unbounded);
    assert_eq!(RunLimit::from_flag(3), RunLimit::Bounded(3));
    assert_eq!(RunLimit::from_flag(0), RunLimit::Bounded(0));
    assert_eq!(RunLimit::from_flag(-7), RunLimit::Bounded(0));
    assert!(RunLimit::Bounded(2).allows(1));
    assert!(!RunLimit::Bounded(2).allows(2));
    assert!(RunLimit::Unbounded.allows(u64::MAX));
}

#[test]
fn bounded_run_of_three() {
    assert_eq!(drive(RunLimit::from_flag(3), 100), (3, 3, true));
}

#[test]
fn zero_runs_do_nothing() {
    assert_eq!(drive(RunLimit::from_flag(0), 100), (0, 0, true));
}

#[test]
fn unbounded_run_cut_after_ten() {
    assert_eq!(drive(RunLimit::from_flag(-1), 10), (10, 10, false));
}

#[test]
fn bad_sample_aborts() {
    let s = Sampler::new(RunLimit::Bounded(3), 10);
    let bad: Result<Measurement<u32>, SampleError> = Err(SampleError::MissingField(Field::Ping));
    match s.on_sample(bad) {
        Outcome::Abort(e) => assert_eq!(e, SampleError::MissingField(Field::Ping)),
        Outcome::Store(_) => panic!("bad sample stored"),
    }
}

#[test]
fn pause_is_the_interval() {
    let mut s = Sampler::new(RunLimit::Bounded(2), 1234);
    assert_eq!(s.next_step(), Step::Measure);
    assert_eq!(s.on_stored(), 1234);
    assert_eq!(s.completed, 1);
    assert_eq!(s.on_stored(), 1234);
    assert_eq!(s.next_step(), Step::Stop);
}

#[test]
fn counter_saturates() {
    let mut s = Sampler { limit: RunLimit::Unbounded, interval_ms: 1, completed: u64::MAX };
    s.on_stored();
    assert_eq!(s.completed, u64::MAX);
    assert_eq!(s.next_step(), Step::Measure);
}

#[test]
fn modes() {
    assert_eq!(Mode::parse("server"), Mode::Server);
    assert_eq!(Mode::parse("client"), Mode::Client);
    assert_eq!(Mode::parse("bogus"), Mode::Unsupported);
    assert_eq!(Mode::parse(""), Mode::Unsupported);
    assert_eq!(Mode::parse("Server"), Mode::Unsupported);
    assert_eq!(Mode::parse("servers"), Mode::Unsupported);
}

#[test]
fn bogus_mode_does_no_work() {
    let m = Mode::parse("bogus");
    assert!(!m.samples());
    assert!(!m.reads_back());
    assert!(Mode::parse("server").samples());
    assert!(Mode::parse("client").reads_back());
}

#[test]
fn text_comparison() {
    assert!(same_text("abc", "abc"));
    assert!(!same_text("abc", "abd"));
    assert!(!same_text("abc", "ab"));
    assert!(same_text("", ""));
}
