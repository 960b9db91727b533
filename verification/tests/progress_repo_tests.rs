use irock_programmer::{progress_percent, split_repo, validate_repo, HardwareType};

#[test]
fn progress_percent_exact_values() {
    assert_eq!(progress_percent(0, 100), 0);
    assert_eq!(progress_percent(50, 100), 50);
    assert_eq!(progress_percent(100, 100), 100);
    assert_eq!(progress_percent(1, 3), 33);
    assert_eq!(progress_percent(2, 3), 66);
    assert_eq!(progress_percent(999, 1000), 99);
}

#[test]
fn progress_percent_unknown_total_stays_zero() {
    assert_eq!(progress_percent(0, 0), 0);
    assert_eq!(progress_percent(123_456, 0), 0);
}

#[test]
fn progress_percent_clamps_overrun() {
    assert_eq!(progress_percent(101, 100), 100);
    assert_eq!(progress_percent(u64::MAX, 1), 100);
}

#[test]
fn progress_percent_large_totals_do_not_overflow() {
    assert_eq!(progress_percent(u64::MAX / 2, u64::MAX), 49);
    assert_eq!(progress_percent(u64::MAX - 1, u64::MAX), 99);
}

#[test]
fn progress_percent_is_monotone_over_a_simulated_download() {
    let total: u64 = 7_777;
    let mut last: usize = 0;
    let mut done: u64 = 0;
    while done < total {
        done = (done + 513).min(total);
        let p = progress_percent(done, total);
        assert!(p >= last);
        last = p;
    }
    assert_eq!(last, 100);
}

#[test]
fn repo_validation_requires_exactly_one_slash() {
    assert!(validate_repo("Arvernus/iRock-424"));
    assert!(validate_repo("a/b"));
    assert!(validate_repo("a/"));
    assert!(validate_repo("/b"));
    assert!(!validate_repo("ab"));
    assert!(!validate_repo("a/b/c"));
    assert!(!validate_repo(""));
}

#[test]
fn split_repo_returns_owner_and_name() {
    assert_eq!(split_repo("Arvernus/iRock-424"), Some(("Arvernus".to_string(), "iRock-424".to_string())));
    assert_eq!(split_repo("a/"), Some(("a".to_string(), "".to_string())));
    assert_eq!(split_repo("nope"), None);
    assert_eq!(split_repo("a/b/c"), None);
}

#[test]
fn every_hardware_repo_is_well_formed() {
    for hw in HardwareType::all() {
        assert!(validate_repo(hw.repo()));
    }
}
