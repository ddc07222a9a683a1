use mis1yakudo::scheduler::{
    millis_until_next_minute, standard_schedule, Job, JobKind, Scheduler,
};

#[test]
fn daily_job_fires_exactly_once_a_day_over_48_hours() {
    let job = Job::new(Some(23), Some(59), JobKind::DailyReport);
    let mut fired_at: Vec<(u32, u32, u32)> = Vec::new();
    for day in 0..2u32 {
        for hour in 0..24u32 {
            for minute in 0..60u32 {
                if job.fires_at(hour, minute) {
                    fired_at.push((day, hour, minute));
                }
            }
        }
    }
    assert_eq!(fired_at, vec![(0, 23, 59), (1, 23, 59)]);
}

#[test]
fn hourly_job_fires_once_every_hour_at_its_minute() {
    let job = Job::new(None, Some(50), JobKind::DestroyDeletedNotes);
    let mut count = 0u32;
    for hour in 0..48u32 {
        for minute in 0..60u32 {
            if job.fires_at(hour % 24, minute) {
                assert_eq!(minute, 50);
                count += 1;
            }
        }
    }
    assert_eq!(count, 48);
}

#[test]
fn job_without_tags_fires_every_minute() {
    let job = Job::new(None, None, JobKind::DailyReport);
    assert!(job.fires_at(0, 0));
    assert!(job.fires_at(13, 37));
}

#[test]
fn due_kinds_picks_the_matching_jobs_in_order() {
    let mut sched = Scheduler::new();
    sched.add(Job::new(Some(23), Some(59), JobKind::DailyReport));
    sched.add(Job::new(None, Some(50), JobKind::DestroyDeletedNotes));
    assert_eq!(sched.due_kinds(23, 59), vec![JobKind::DailyReport]);
    assert_eq!(sched.due_kinds(7, 50), vec![JobKind::DestroyDeletedNotes]);
    assert_eq!(sched.due_kinds(23, 50), vec![JobKind::DestroyDeletedNotes]);
    assert_eq!(sched.due_kinds(12, 0), Vec::<JobKind>::new());
}

#[test]
fn standard_schedule_registers_report_and_cleanup() {
    let sched = standard_schedule();
    assert_eq!(sched.jobs.len(), 2);
    assert_eq!(sched.jobs[0], Job::new(Some(23), Some(59), JobKind::DailyReport));
    assert_eq!(sched.jobs[1], Job::new(None, Some(50), JobKind::DestroyDeletedNotes));
}

#[test]
fn sleep_reaches_the_next_minute_boundary_without_drift() {
    assert_eq!(millis_until_next_minute(0, 0), 60_000);
    assert_eq!(millis_until_next_minute(59, 999), 1);
    assert_eq!(millis_until_next_minute(30, 250), 29_750);
}
