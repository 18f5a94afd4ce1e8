use rment::report::{decimal, EntryOutcome, Report};

#[test]
fn new_report_is_empty() {
    let report = Report::new();
    assert_eq!(
        report,
        Report {
            successful_file: 0,
            successful_dir: 0,
            failed_file: 0,
            failed_dir: 0,
            absent: 0,
            skipped: 0
        }
    );
    assert_eq!(report.total(), Some(0));
}

#[test]
fn record_bumps_exactly_one_counter() {
    let outcomes = [
        EntryOutcome::RemovedFile,
        EntryOutcome::RemovedDirectory,
        EntryOutcome::FailedFile("denied".to_string()),
        EntryOutcome::FailedDirectory("busy".to_string()),
        EntryOutcome::Absent,
        EntryOutcome::Skipped,
    ];
    for (i, outcome) in outcomes.iter().enumerate() {
        let mut report = Report::new();
        report.record(outcome);
        let counters = [
            report.successful_file,
            report.successful_dir,
            report.failed_file,
            report.failed_dir,
            report.absent,
            report.skipped,
        ];
        for (j, counter) in counters.iter().enumerate() {
            assert_eq!(*counter, if i == j { 1 } else { 0 });
        }
        assert_eq!(report.total(), Some(1));
    }
}

#[test]
fn counters_add_up_to_number_of_records() {
    let mut report = Report::new();
    for round in 0..7u64 {
        report.record(&EntryOutcome::RemovedFile);
        report.record(&EntryOutcome::Absent);
        report.record(&EntryOutcome::FailedDirectory("busy".to_string()));
        assert_eq!(report.total(), Some(3 * (round + 1)));
    }
    assert_eq!(report.successful_file, 7);
    assert_eq!(report.absent, 7);
    assert_eq!(report.failed_dir, 7);
}

#[test]
fn total_that_does_not_fit_is_none() {
    let report = Report {
        successful_file: u64::MAX,
        successful_dir: 1,
        failed_file: 0,
        failed_dir: 0,
        absent: 0,
        skipped: 0,
    };
    assert_eq!(report.total(), None);
    let report = Report {
        successful_file: u64::MAX - 1,
        successful_dir: 0,
        failed_file: 0,
        failed_dir: 0,
        absent: 0,
        skipped: 1,
    };
    assert_eq!(report.total(), Some(u64::MAX));
}

#[test]
fn decimal_writes_plain_digits() {
    assert_eq!(decimal(0), "0");
    assert_eq!(decimal(7), "7");
    assert_eq!(decimal(10), "10");
    assert_eq!(decimal(105), "105");
    assert_eq!(decimal(9_876_543_210), "9876543210");
    assert_eq!(decimal(u64::MAX), "18446744073709551615");
}

#[test]
fn decimal_agrees_with_std() {
    let mut n: u64 = 1;
    for _ in 0..64 {
        assert_eq!(decimal(n), n.to_string());
        assert_eq!(decimal(n - 1), (n - 1).to_string());
        n = n.wrapping_mul(3).wrapping_add(n >> 3) | 1;
    }
}

#[test]
fn summary_lists_the_six_counters_in_order() {
    let report = Report {
        successful_file: 1,
        successful_dir: 2,
        failed_file: 3,
        failed_dir: 4,
        absent: 5,
        skipped: 60,
    };
    assert_eq!(
        report.summary(),
        "Final Report: 1/2/3/4/5/60 | sfile/sdir/ffile/fdir/missing/skipped"
    );
    assert_eq!(
        Report::new().summary(),
        "Final Report: 0/0/0/0/0/0 | sfile/sdir/ffile/fdir/missing/skipped"
    );
}

#[test]
fn figures_follow_the_order_of_the_summary() {
    let report = Report {
        successful_file: 1,
        successful_dir: 2,
        failed_file: 3,
        failed_dir: 4,
        absent: 5,
        skipped: 60,
    };
    assert_eq!(report.figures(), vec!["1", "2", "3", "4", "5", "60"]);
    assert_eq!(
        report.summary(),
        format!(
            "Final Report: {} | sfile/sdir/ffile/fdir/missing/skipped",
            report.figures().join("/")
        )
    );
}
