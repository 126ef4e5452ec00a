use download_monitor::monitor::{Event, Monitor, MonitorState, StopReason, IDLE_LIMIT, TICK_SECS};
use download_monitor::size::size_delta;
use download_monitor::status::{inaccessible_notice, Status};
use download_monitor::summary::{summarize, summary_report, Summary};

#[test]
fn a_new_monitor_has_seen_nothing() {
    let monitor = Monitor::new();
    assert_eq!(
        monitor.state(),
        MonitorState {
            initial_size: None,
            previous_size: None,
            last_known_size: 0,
            no_change_count: 0,
            stopped: None,
        }
    );
    assert_eq!(monitor.stopped(), None);
    assert_eq!(IDLE_LIMIT, 5);
    assert_eq!(TICK_SECS, 1);
}

#[test]
fn six_equal_reads_stop_at_the_fifth_idle_tick() {
    let mut monitor = Monitor::new();
    assert_eq!(monitor.step(Event::Size(100)), Some(Status::Initial { size: 100 }));
    assert_eq!(monitor.stopped(), None);
    for idle in 1..=4u64 {
        assert_eq!(
            monitor.step(Event::Size(100)),
            Some(Status::Idle { size: 100, idle_ticks: idle })
        );
        assert_eq!(monitor.stopped(), None);
        assert_eq!(monitor.state().no_change_count, idle);
    }
    assert_eq!(monitor.step(Event::Size(100)), Some(Status::Idle { size: 100, idle_ticks: 5 }));
    assert_eq!(monitor.stopped(), Some(StopReason::IdleTimeout));
    assert_eq!(monitor.state().no_change_count, 5);
    assert_eq!(monitor.state().last_known_size, 100);
    assert_eq!(monitor.state().initial_size, Some(100));
}

#[test]
fn a_shrink_counts_as_no_growth() {
    assert_eq!(size_delta(100, 80), 0);
    assert_eq!(size_delta(100, 100), 0);
    assert_eq!(size_delta(100, 180), 80);
    assert_eq!(size_delta(0, u64::MAX), u64::MAX);
    assert_eq!(size_delta(u64::MAX, 0), 0);
    let mut monitor = Monitor::new();
    monitor.step(Event::Size(100));
    assert_eq!(monitor.step(Event::Size(80)), Some(Status::Idle { size: 80, idle_ticks: 1 }));
    assert_eq!(monitor.state().previous_size, Some(80));
    assert_eq!(monitor.state().last_known_size, 80);
    assert_eq!(monitor.state().initial_size, Some(100));
    assert_eq!(monitor.step(Event::Size(90)), Some(Status::Growing { size: 90, speed: 10 }));
    assert_eq!(monitor.state().no_change_count, 0);
}

#[test]
fn growth_resets_the_idle_count() {
    let mut monitor = Monitor::new();
    monitor.step(Event::Size(10));
    for _ in 0..4 {
        monitor.step(Event::Size(10));
    }
    assert_eq!(monitor.state().no_change_count, 4);
    assert_eq!(monitor.step(Event::Size(30)), Some(Status::Growing { size: 30, speed: 20 }));
    assert_eq!(monitor.state().no_change_count, 0);
    assert_eq!(monitor.stopped(), None);
    for idle in 1..=4u64 {
        assert_eq!(
            monitor.step(Event::Size(30)),
            Some(Status::Idle { size: 30, idle_ticks: idle })
        );
        assert_eq!(monitor.stopped(), None);
    }
    monitor.step(Event::Size(30));
    assert_eq!(monitor.stopped(), Some(StopReason::IdleTimeout));
}

#[test]
fn a_path_that_never_exists_waits_until_interrupted() {
    let mut monitor = Monitor::new();
    for _ in 0..50 {
        assert_eq!(monitor.step(Event::Unreadable), Some(Status::Waiting));
        assert_eq!(monitor.stopped(), None);
        assert_eq!(monitor.state().initial_size, None);
    }
    assert_eq!(monitor.step(Event::Interrupt), None);
    assert_eq!(monitor.stopped(), Some(StopReason::Interrupted));
    let summary = monitor.summary(50);
    assert_eq!(
        summary,
        Summary {
            total_downloaded: 0,
            final_size: 0,
            elapsed_secs: 50,
            average_speed: Some(0),
        }
    );
    assert_eq!(monitor.state().initial_size, None);
}

#[test]
fn a_file_that_grows_once_then_rests_times_out() {
    let mut monitor = Monitor::new();
    assert_eq!(monitor.step(Event::Size(0)), Some(Status::Initial { size: 0 }));
    assert_eq!(monitor.step(Event::Size(1024)), Some(Status::Growing { size: 1024, speed: 1024 }));
    for idle in 1..=5u64 {
        assert_eq!(monitor.stopped(), None);
        assert_eq!(
            monitor.step(Event::Size(1024)),
            Some(Status::Idle { size: 1024, idle_ticks: idle })
        );
    }
    assert_eq!(monitor.stopped(), Some(StopReason::IdleTimeout));
    let summary = monitor.summary(6);
    assert_eq!(summary.total_downloaded, 1024);
    assert_eq!(summary.final_size, 1024);
    assert_eq!(summary.elapsed_secs, 6);
    assert_eq!(summary.average_speed, Some(1024 / 6));
    assert_eq!(
        summary.render(),
        "\n\n--- Download Summary ---\nTotal downloaded: 1.00 KB\nFinal size: 1.00 KB\nDuration: 6s\nAverage speed: 170 B/s\n"
    );
}

#[test]
fn a_file_that_disappears_stops_the_monitor() {
    let mut monitor = Monitor::new();
    monitor.step(Event::Size(500));
    monitor.step(Event::Size(700));
    assert_eq!(monitor.step(Event::Unreadable), None);
    assert_eq!(monitor.stopped(), Some(StopReason::Inaccessible));
    assert_eq!(monitor.state().last_known_size, 700);
    let summary = monitor.summary(2);
    assert_eq!(summary.total_downloaded, 200);
    assert_eq!(summary.final_size, 700);
    assert_eq!(summary.average_speed, Some(100));
}

#[test]
fn an_interrupt_stops_a_running_monitor() {
    let mut monitor = Monitor::new();
    monitor.step(Event::Size(1));
    monitor.step(Event::Size(5));
    assert_eq!(monitor.step(Event::Interrupt), None);
    assert_eq!(monitor.stopped(), Some(StopReason::Interrupted));
    assert_eq!(monitor.state().last_known_size, 5);
    assert_eq!(monitor.state().initial_size, Some(1));
}

#[test]
fn a_stopped_monitor_changes_no_more() {
    let mut monitor = Monitor::new();
    monitor.step(Event::Size(1));
    monitor.step(Event::Interrupt);
    let stopped = monitor.state();
    for event in [Event::Size(9), Event::Unreadable, Event::Interrupt, Event::Size(1)] {
        assert_eq!(monitor.step(event), None);
        assert_eq!(monitor.state(), stopped);
    }
    let mut idle = Monitor::new();
    for _ in 0..6 {
        idle.step(Event::Size(7));
    }
    let stopped = idle.state();
    assert_eq!(stopped.stopped, Some(StopReason::IdleTimeout));
    for _ in 0..10 {
        assert_eq!(idle.step(Event::Size(7)), None);
        assert_eq!(idle.state(), stopped);
    }
}

#[test]
fn the_first_read_after_waiting_sets_the_initial_size() {
    let mut monitor = Monitor::new();
    monitor.step(Event::Unreadable);
    monitor.step(Event::Unreadable);
    assert_eq!(monitor.step(Event::Size(42)), Some(Status::Initial { size: 42 }));
    assert_eq!(monitor.state().initial_size, Some(42));
    monitor.step(Event::Size(50));
    monitor.step(Event::Size(60));
    assert_eq!(monitor.state().initial_size, Some(42));
    assert_eq!(monitor.state().previous_size, Some(60));
}

#[test]
fn status_lines() {
    assert_eq!(Status::Waiting.render(), "\rWaiting for file to appear...    ");
    assert_eq!(Status::Initial { size: 2048 }.render(), "Initial size: 2.00 KB\n");
    assert_eq!(
        Status::Idle { size: 100, idle_ticks: 3 }.render(),
        "\rSize: 100 B | Speed: 0 B/s (idle 3/5)    "
    );
    assert_eq!(
        Status::Growing { size: 3 * 1024 * 1024, speed: 1536 }.render(),
        "\rSize: 3.00 MB | Speed: 1.50 KB/s         "
    );
    assert_eq!(
        inaccessible_notice("No such file or directory (os error 2)"),
        "\nFile no longer accessible: No such file or directory (os error 2)\n"
    );
}

#[test]
fn summary_of_a_run() {
    let summary = summarize(Some(1000), 5000, 10);
    assert_eq!(
        summary,
        Summary {
            total_downloaded: 4000,
            final_size: 5000,
            elapsed_secs: 10,
            average_speed: Some(400),
        }
    );
    assert_eq!(
        summary.render(),
        "\n\n--- Download Summary ---\nTotal downloaded: 3.91 KB\nFinal size: 4.88 KB\nDuration: 10s\nAverage speed: 400 B/s\n"
    );
    assert_eq!(summary_report(Some(1000), 5000, 10), summary.render());
}

#[test]
fn summary_without_a_whole_second_has_no_speed() {
    let summary = summarize(Some(0), 4096, 0);
    assert_eq!(summary.average_speed, None);
    assert_eq!(
        summary.render(),
        "\n\n--- Download Summary ---\nTotal downloaded: 4.00 KB\nFinal size: 4.00 KB\nDuration: 0s\n"
    );
}

#[test]
fn summary_of_a_file_that_shrank_or_was_never_seen() {
    assert_eq!(summarize(Some(5000), 1000, 3).total_downloaded, 0);
    assert_eq!(summarize(Some(5000), 1000, 3).average_speed, Some(0));
    assert_eq!(summarize(None, 0, 7).total_downloaded, 0);
    assert_eq!(summarize(None, 0, 7).final_size, 0);
    assert_eq!(summarize(None, 300, 7).total_downloaded, 300);
    assert_eq!(summarize(Some(0), u64::MAX, 1).average_speed, Some(u64::MAX));
    assert_eq!(
        summary_report(None, 0, 3725),
        "\n\n--- Download Summary ---\nTotal downloaded: 0 B\nFinal size: 0 B\nDuration: 1h 2m 5s\nAverage speed: 0 B/s\n"
    );
}
