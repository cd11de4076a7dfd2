//! Per-day counts of completed pomodoros and per-week work time.
use vstd::prelude::*;

verus! {

/// Keyed amounts: a key (a day or a week) and an amount for it.
pub type Tally = Seq<(Seq<char>, nat)>;

/// `i` is the first position of key `k` in `s`.
pub open spec fn first_key(s: Tally, k: Seq<char>, i: int) -> bool {
    &&& 0 <= i < s.len()
    &&& s[i].0 == k
    &&& forall|j: int| 0 <= j < i ==> s[j].0 != k
}

/// `new` is `old` with `amount` added to the first entry of key `k`, or with
/// `(k, amount)` appended where `old` has no such entry.
pub open spec fn tallied(old: Tally, new: Tally, k: Seq<char>, amount: nat) -> bool {
    &&& forall|i: int| #[trigger]
        first_key(old, k, i) ==> new == old.update(i, (k, (old[i].1 + amount) as nat))
    &&& (forall|j: int| 0 <= j < old.len() ==> old[j].0 != k) ==> new == old.push((k, amount))
}

pub open spec fn counts_view(v: Seq<(String, u32)>) -> Tally {
    v.map_values(|e: (String, u32)| (e.0@, e.1 as nat))
}

pub open spec fn times_view(v: Seq<(String, u64)>) -> Tally {
    v.map_values(|e: (String, u64)| (e.0@, e.1 as nat))
}

/// The mathematical state of [`Stats`].
pub struct StatsModel {
    /// Completed pomodoros per day ("YYYY-MM-DD").
    pub daily_pomodoros: Tally,
    /// Work time in nanoseconds per week ("YYYY-Www").
    pub weekly_work_time: Tally,
}

/// Relies on chrono's `Utc::now` and `DateTime::format`: the current UTC time
/// written with one of the two strftime patterns below, both of which chrono
/// accepts. The result depends on the clock, so nothing is stated of it.
#[verifier::external_body]
fn utc_now_formatted(pattern: &str) -> String
    requires
        pattern@ == "%Y-%m-%d"@ || pattern@ == "%Y-W%V"@,
{
    chrono::Utc::now().format(pattern).to_string()
}

/// Completed pomodoros per day and work time per week.
pub struct Stats {
    daily_pomodoros: Vec<(String, u32)>,
    weekly_work_time: Vec<(String, u64)>,
}

impl View for Stats {
    type V = StatsModel;

    closed spec fn view(&self) -> StatsModel {
        StatsModel {
            daily_pomodoros: counts_view(self.daily_pomodoros@),
            weekly_work_time: times_view(self.weekly_work_time@),
        }
    }
}

impl Stats {
    /// No days and no weeks.
    pub fn new() -> (r: Stats)
        ensures
            r@.daily_pomodoros.len() == 0,
            r@.weekly_work_time.len() == 0,
    {
        Stats { daily_pomodoros: Vec::new(), weekly_work_time: Vec::new() }
    }

    /// Statistics as they were saved.
    pub fn from_saved(daily_pomodoros: Vec<(String, u32)>, weekly_work_time: Vec<(String, u64)>) -> (r: Stats)
        ensures
            r@.daily_pomodoros == counts_view(daily_pomodoros@),
            r@.weekly_work_time == times_view(weekly_work_time@),
    {
        Stats { daily_pomodoros, weekly_work_time }
    }

    /// Counts one completed pomodoro on `day`.
    pub fn add_pomodoro_on(&mut self, day: String)
        requires
            forall|j: int|
                0 <= j < old(self)@.daily_pomodoros.len() && (
                #[trigger] old(self)@.daily_pomodoros[j]).0 == day@ ==> old(
                    self,
                )@.daily_pomodoros[j].1 < u32::MAX,
        ensures
            tallied(old(self)@.daily_pomodoros, final(self)@.daily_pomodoros, day@, 1),
            final(self)@.weekly_work_time == old(self)@.weekly_work_time,
    {
        let ghost old_v = old(self)@.daily_pomodoros;
        let mut i: usize = 0;
        while i < self.daily_pomodoros.len()
            invariant
                0 <= i <= self.daily_pomodoros@.len(),
                self@ == old(self)@,
                counts_view(self.daily_pomodoros@) == old_v,
                forall|j: int| 0 <= j < i ==> (#[trigger] old_v[j]).0 != day@,
                forall|j: int|
                    0 <= j < old_v.len() && (#[trigger] old_v[j]).0 == day@ ==> old_v[j].1
                        < u32::MAX,
            decreases self.daily_pomodoros@.len() - i,
        {
            assert(old_v[i as int].0 == self.daily_pomodoros@[i as int].0@);
            if self.daily_pomodoros[i].0 == day {
                assert(old_v.len() == self.daily_pomodoros@.len());
                assert(old_v[i as int].0 == day@);
                self.daily_pomodoros[i].1 = self.daily_pomodoros[i].1 + 1;
                assert(first_key(old_v, day@, i as int));
                assert forall|k: int| #[trigger] first_key(old_v, day@, k) implies counts_view(
                    self.daily_pomodoros@,
                ) == old_v.update(k, (day@, (old_v[k].1 + 1) as nat)) by {
                    assert(k == i);
                    assert(counts_view(self.daily_pomodoros@) =~= old_v.update(
                        k,
                        (day@, (old_v[k].1 + 1) as nat),
                    ));
                }
                return;
            }
            i = i + 1;
        }
        let ghost k = day@;
        self.daily_pomodoros.push((day, 1));
        assert(counts_view(self.daily_pomodoros@) =~= old_v.push((k, 1)));
    }

    /// Adds `d` nanoseconds of work to `week`.
    pub fn add_work_time_in(&mut self, week: String, d: u64)
        requires
            forall|j: int|
                0 <= j < old(self)@.weekly_work_time.len() && (
                #[trigger] old(self)@.weekly_work_time[j]).0 == week@ ==> old(
                    self,
                )@.weekly_work_time[j].1 + d <= u64::MAX,
        ensures
            tallied(old(self)@.weekly_work_time, final(self)@.weekly_work_time, week@, d as nat),
            final(self)@.daily_pomodoros == old(self)@.daily_pomodoros,
    {
        let ghost old_v = old(self)@.weekly_work_time;
        let mut i: usize = 0;
        while i < self.weekly_work_time.len()
            invariant
                0 <= i <= self.weekly_work_time@.len(),
                self@ == old(self)@,
                times_view(self.weekly_work_time@) == old_v,
                forall|j: int| 0 <= j < i ==> (#[trigger] old_v[j]).0 != week@,
                forall|j: int|
                    0 <= j < old_v.len() && (#[trigger] old_v[j]).0 == week@ ==> old_v[j].1 + d
                        <= u64::MAX,
            decreases self.weekly_work_time@.len() - i,
        {
            assert(old_v[i as int].0 == self.weekly_work_time@[i as int].0@);
            if self.weekly_work_time[i].0 == week {
                assert(old_v.len() == self.weekly_work_time@.len());
                assert(old_v[i as int].0 == week@);
                self.weekly_work_time[i].1 = self.weekly_work_time[i].1 + d;
                assert(first_key(old_v, week@, i as int));
                assert forall|k: int| #[trigger] first_key(old_v, week@, k) implies times_view(
                    self.weekly_work_time@,
                ) == old_v.update(k, (week@, (old_v[k].1 + d) as nat)) by {
                    assert(k == i);
                    assert(times_view(self.weekly_work_time@) =~= old_v.update(
                        k,
                        (week@, (old_v[k].1 + d) as nat),
                    ));
                }
                return;
            }
            i = i + 1;
        }
        let ghost k = week@;
        self.weekly_work_time.push((week, d));
        assert(times_view(self.weekly_work_time@) =~= old_v.push((k, d as nat)));
    }

    /// Counts one completed pomodoro today (UTC).
    pub fn add_pomodoro(&mut self)
        requires
            forall|j: int|
                0 <= j < old(self)@.daily_pomodoros.len() ==> (#[trigger] old(
                    self,
                )@.daily_pomodoros[j]).1 < u32::MAX,
        ensures
            exists|day: Seq<char>|
                tallied(old(self)@.daily_pomodoros, final(self)@.daily_pomodoros, day, 1),
            final(self)@.weekly_work_time == old(self)@.weekly_work_time,
    {
        let today = utc_now_formatted("%Y-%m-%d");
        let ghost k = today@;
        self.add_pomodoro_on(today);
        assert(tallied(old(self)@.daily_pomodoros, self@.daily_pomodoros, k, 1));
    }

    /// Adds `d` nanoseconds of work to the current ISO week (UTC).
    pub fn add_work_time(&mut self, d: u64)
        requires
            forall|j: int|
                0 <= j < old(self)@.weekly_work_time.len() ==> (#[trigger] old(
                    self,
                )@.weekly_work_time[j]).1 + d <= u64::MAX,
        ensures
            exists|week: Seq<char>|
                tallied(old(self)@.weekly_work_time, final(self)@.weekly_work_time, week, d as nat),
            final(self)@.daily_pomodoros == old(self)@.daily_pomodoros,
    {
        let week = utc_now_formatted("%Y-W%V");
        let ghost k = week@;
        self.add_work_time_in(week, d);
        assert(tallied(old(self)@.weekly_work_time, self@.weekly_work_time, k, d as nat));
    }

    /// Completed pomodoros per day, as saved.
    pub fn daily_pomodoros(&self) -> (r: &Vec<(String, u32)>)
        ensures
            counts_view(r@) == self@.daily_pomodoros,
    {
        &self.daily_pomodoros
    }

    /// Work time per week, as saved.
    pub fn weekly_work_time(&self) -> (r: &Vec<(String, u64)>)
        ensures
            times_view(r@) == self@.weekly_work_time,
    {
        &self.weekly_work_time
    }
}

} // verus!
