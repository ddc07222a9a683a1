//! The minute-resolution job scheduler. A job is tagged with an optional
//! hour and an optional minute; every minute the scheduler wakes and fires
//! each job whose tags match the current wall clock, an omitted tag matching
//! anything. The sleeping and the spawning run outside the library; the
//! library fixes which jobs are due at a tick and how long the sleep to the
//! next minute boundary is.

use vstd::prelude::*;

verus! {

/// The maintenance work a job stands for, in place of a captured closure.
#[derive(Clone, Copy, Debug, PartialEq, Eq, Structural)]
pub enum JobKind {
    /// Post the day's best score (or the lack of one).
    DailyReport,
    /// Drop quotes and records whose source note has vanished.
    DestroyDeletedNotes,
}

/// One scheduled job: fire when the hour and minute both match, an absent
/// field matching every value.
#[derive(Clone, Copy, Debug, PartialEq, Eq)]
pub struct Job {
    pub hour: Option<u32>,
    pub minute: Option<u32>,
    pub kind: JobKind,
}

/// Whether a job is due at the wall-clock tick `(hour, minute)`.
pub open spec fn spec_job_due(j: Job, hour: u32, minute: u32) -> bool {
    &&& (j.hour is Some ==> j.hour->0 == hour)
    &&& (j.minute is Some ==> j.minute->0 == minute)
}

impl Job {
    pub fn new(hour: Option<u32>, minute: Option<u32>, kind: JobKind) -> (j: Job)
        ensures
            j == (Job { hour, minute, kind }),
    {
        Job { hour, minute, kind }
    }

    /// Whether this job fires at the given wall-clock minute.
    pub fn fires_at(&self, hour: u32, minute: u32) -> (b: bool)
        ensures
            b == spec_job_due(*self, hour, minute),
    {
        let hour_ok = match self.hour {
            Some(h) => h == hour,
            None => true,
        };
        let minute_ok = match self.minute {
            Some(m) => m == minute,
            None => true,
        };
        hour_ok && minute_ok
    }
}

/// A job pinned to both an hour and a minute is due exactly at that
/// wall-clock minute of each day and at no other tick.
pub proof fn lemma_daily_job_fires_once_a_day(j: Job, jh: u32, jm: u32, h: u32, m: u32)
    requires
        j.hour == Some(jh),
        j.minute == Some(jm),
    ensures
        spec_job_due(j, h, m) <==> (h == jh && m == jm),
{
}

/// A job pinned to a minute but no hour is due once an hour, at that minute.
pub proof fn lemma_hourly_job_fires_every_hour(j: Job, jm: u32, h: u32, m: u32)
    requires
        j.hour is None,
        j.minute == Some(jm),
    ensures
        spec_job_due(j, h, m) <==> m == jm,
{
}

/// The kinds of the jobs due at `(h, m)`, in registration order.
pub open spec fn spec_due_kinds(jobs: Seq<Job>, h: u32, m: u32) -> Seq<JobKind>
    decreases jobs.len(),
{
    if jobs.len() == 0 {
        Seq::empty()
    } else {
        let rest = spec_due_kinds(jobs.drop_last(), h, m);
        if spec_job_due(jobs.last(), h, m) {
            rest.push(jobs.last().kind)
        } else {
            rest
        }
    }
}

/// The registered jobs, evaluated together at each minute tick.
pub struct Scheduler {
    pub jobs: Vec<Job>,
}

impl Scheduler {
    pub fn new() -> (s: Self)
        ensures
            s.jobs@ =~= Seq::<Job>::empty(),
    {
        Scheduler { jobs: Vec::new() }
    }

    pub fn add(&mut self, job: Job)
        ensures
            final(self).jobs@ == old(self).jobs@.push(job),
    {
        self.jobs.push(job);
    }

    /// Every job due at `(hour, minute)`, in registration order. The driver
    /// spawns one task per returned kind, so a slow job delays nothing.
    pub fn due_kinds(&self, hour: u32, minute: u32) -> (v: Vec<JobKind>)
        ensures
            v@ == spec_due_kinds(self.jobs@, hour, minute),
    {
        let mut v: Vec<JobKind> = Vec::new();
        let mut i: usize = 0;
        while i < self.jobs.len()
            invariant
                0 <= i <= self.jobs@.len(),
                v@ == spec_due_kinds(self.jobs@.take(i as int), hour, minute),
            decreases self.jobs@.len() - i,
        {
            let ghost prefix = self.jobs@.take(i as int);
            if self.jobs[i].fires_at(hour, minute) {
                v.push(self.jobs[i].kind);
            }
            proof {
                let next = self.jobs@.take(i + 1 as int);
                assert(next.drop_last() =~= prefix);
                assert(next.last() == self.jobs@[i as int]);
            }
            i = i + 1;
        }
        proof {
            assert(self.jobs@.take(self.jobs@.len() as int) =~= self.jobs@);
        }
        v
    }
}

/// Milliseconds to sleep from `(second, subsec_millis)` within the current
/// minute until the next minute boundary. Computed from the current reading
/// each time, so the ticks do not drift.
pub fn millis_until_next_minute(second: u32, subsec_millis: u32) -> (ms: u64)
    requires
        second < 60,
        subsec_millis < 1000,
    ensures
        ms == (60 - second) * 1000 - subsec_millis,
        0 < ms <= 60_000,
{
    (60 - second as u64) * 1000 - subsec_millis as u64
}

/// The bot's standing schedule: the daily report at 23:59, and the cleanup
/// of vanished notes at minute 50 of every hour.
pub fn standard_schedule() -> (s: Scheduler)
    ensures
        s.jobs@.len() == 2,
        s.jobs@[0] == (Job { hour: Some(23), minute: Some(59), kind: JobKind::DailyReport }),
        s.jobs@[1] == (Job { hour: None, minute: Some(50), kind: JobKind::DestroyDeletedNotes }),
{
    let mut s = Scheduler::new();
    s.add(Job::new(Some(23), Some(59), JobKind::DailyReport));
    s.add(Job::new(None, Some(50), JobKind::DestroyDeletedNotes));
    s
}

} // verus!
