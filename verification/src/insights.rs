//! Dashboard insights: the time windows of the summary, and the user-growth and
//! session-activity series built from per-day counts.

use vstd::prelude::*;
use crate::domain::{admin_required, has_role, require_admin_role, AuthenticatedUserContext};
use crate::errors::ServiceError;

verus! {

/// Seconds in a day.
pub const SECONDS_PER_DAY: i64 = 86400;

/// New registrations on one day (the date as `YYYY-MM-DD`).
#[derive(Debug)]
pub struct DailyNewUsers {
    pub date: String,
    pub count: i64,
}

/// Sessions created on one day, and by how many distinct users.
#[derive(Debug)]
pub struct DailySessionActivity {
    pub date: String,
    pub sessions_created: i64,
    pub unique_users: i64,
}

/// One day of the user-growth series: the users registered that day and the
/// running total of users at its end.
#[derive(Debug)]
pub struct UserGrowthPoint {
    pub date: String,
    pub total_users: i64,
    pub new_users: i64,
}

/// One day of the session-activity series.
#[derive(Debug)]
pub struct SessionActivityPoint {
    pub date: String,
    pub sessions_created: i64,
    pub unique_users: i64,
}

/// The sum of `counts`.
pub open spec fn sum_counts(counts: Seq<i64>) -> int
    decreases counts.len(),
{
    if counts.len() == 0 {
        0
    } else {
        sum_counts(counts.drop_last()) + counts.last()
    }
}

/// The counts of `rows`, in order.
pub open spec fn row_counts(rows: Seq<DailyNewUsers>) -> Seq<i64> {
    rows.map_values(|r: DailyNewUsers| r.count)
}

/// The number of days a series covers for a requested number: 1 to 365.
pub open spec fn clamp_days(days: i32) -> i32 {
    if days < 1 {
        1
    } else if days > 365 {
        365
    } else {
        days
    }
}

/// Whether every running total of `baseline` plus a prefix of `counts` fits an `i64`.
pub open spec fn running_totals_fit(baseline: i64, counts: Seq<i64>) -> bool {
    forall|k: int|
        0 <= k <= counts.len() ==> i64::MIN <= baseline + #[trigger] sum_counts(counts.take(k))
            <= i64::MAX
}

/// The insights application.
pub struct InsightsApplication {}

impl InsightsApplication {
    /// The insights application (it keeps no state).
    pub fn new() -> (a: InsightsApplication) {
        InsightsApplication {  }
    }

    /// Succeeds exactly when the caller holds the `admin` role.
    pub fn require_admin(ctx: &AuthenticatedUserContext) -> (r: Result<(), ServiceError>)
        ensures
            r.is_ok() == has_role(ctx.roles@, "admin"@),
            r matches Err(e) ==> admin_required(e),
    {
        require_admin_role(ctx)
    }

    /// The starts of the summary's windows at `now`: a week and thirty days back.
    pub fn summary_windows(now: i64) -> (w: (i64, i64))
        requires
            now - 30 * SECONDS_PER_DAY >= i64::MIN,
        ensures
            w.0 == now - 7 * SECONDS_PER_DAY,
            w.1 == now - 30 * SECONDS_PER_DAY,
    {
        (now - 7 * SECONDS_PER_DAY, now - 30 * SECONDS_PER_DAY)
    }

    /// The number of days a series covers for the requested `days`.
    pub fn series_days(days: i32) -> (d: i32)
        ensures
            d == clamp_days(days),
            1 <= d <= 365,
    {
        if days < 1 {
            1
        } else if days > 365 {
            365
        } else {
            days
        }
    }

    /// The start of a series of `days` days ending at `now`.
    pub fn window_start(now: i64, days: i32) -> (t: i64)
        requires
            1 <= days <= 365,
            now - 365 * SECONDS_PER_DAY >= i64::MIN,
        ensures
            t == now - days * SECONDS_PER_DAY,
    {
        assert(0 <= days * SECONDS_PER_DAY <= 365 * SECONDS_PER_DAY) by (nonlinear_arith)
            requires
                1 <= days <= 365,
        ;
        now - (days as i64) * SECONDS_PER_DAY
    }

    /// The number of users that existed before a window: all users minus
    /// those created inside it.
    pub fn baseline(all_time: i64, in_window: i64) -> (b: i64)
        requires
            i64::MIN <= all_time - in_window <= i64::MAX,
        ensures
            b == all_time - in_window,
    {
        all_time - in_window
    }

    /// The user-growth series: for each day, its new users and the running
    /// total starting from `baseline`.
    pub fn get_user_growth(baseline: i64, rows: Vec<DailyNewUsers>) -> (points: Vec<UserGrowthPoint>)
        requires
            running_totals_fit(baseline, row_counts(rows@)),
        ensures
            points@.len() == rows@.len(),
            forall|i: int|
                0 <= i < rows@.len() ==> (#[trigger] points@[i]).date == rows@[i].date
                    && points@[i].new_users == rows@[i].count && points@[i].total_users == baseline
                    + sum_counts(row_counts(rows@).take(i + 1)),
    {
        let ghost all = rows@;
        let ghost counts = row_counts(all);
        let mut rows = rows;
        let mut rev: Vec<DailyNewUsers> = Vec::new();
        while rows.len() > 0
            invariant
                rows@.len() + rev@.len() == all.len(),
                forall|j: int| 0 <= j < rows@.len() ==> rows@[j] == all[j],
                forall|j: int| 0 <= j < rev@.len() ==> rev@[j] == all[all.len() - 1 - j],
            decreases rows@.len(),
        {
            let r = rows.pop().unwrap();
            rev.push(r);
        }
        let mut points: Vec<UserGrowthPoint> = Vec::new();
        let mut cumulative: i64 = baseline;
        while rev.len() > 0
            invariant
                rev@.len() + points@.len() == all.len(),
                counts == row_counts(all),
                running_totals_fit(baseline, counts),
                forall|j: int| 0 <= j < rev@.len() ==> rev@[j] == all[all.len() - 1 - j],
                cumulative == baseline + sum_counts(counts.take(points@.len() as int)),
                forall|i: int|
                    0 <= i < points@.len() ==> (#[trigger] points@[i]).date == all[i].date
                        && points@[i].new_users == all[i].count && points@[i].total_users == baseline
                        + sum_counts(counts.take(i + 1)),
            decreases rev@.len(),
        {
            let r = rev.pop().unwrap();
            let ghost k = points@.len() as int;
            proof {
                assert(r == all[k]);
                assert(counts.take(k + 1).drop_last() =~= counts.take(k));
                assert(counts.take(k + 1).last() == r.count);
                assert(i64::MIN <= baseline + sum_counts(counts.take(k + 1)) <= i64::MAX);
            }
            cumulative = cumulative + r.count;
            points.push(UserGrowthPoint { date: r.date, total_users: cumulative, new_users: r.count });
        }
        points
    }

    /// The session-activity series: one point per day, as counted.
    pub fn get_session_activity(rows: Vec<DailySessionActivity>) -> (points: Vec<SessionActivityPoint>)
        ensures
            points@.len() == rows@.len(),
            forall|i: int|
                0 <= i < rows@.len() ==> (#[trigger] points@[i]).date == rows@[i].date
                    && points@[i].sessions_created == rows@[i].sessions_created
                    && points@[i].unique_users == rows@[i].unique_users,
    {
        let ghost all = rows@;
        let mut rows = rows;
        let mut rev: Vec<DailySessionActivity> = Vec::new();
        while rows.len() > 0
            invariant
                rows@.len() + rev@.len() == all.len(),
                forall|j: int| 0 <= j < rows@.len() ==> rows@[j] == all[j],
                forall|j: int| 0 <= j < rev@.len() ==> rev@[j] == all[all.len() - 1 - j],
            decreases rows@.len(),
        {
            let r = rows.pop().unwrap();
            rev.push(r);
        }
        let mut points: Vec<SessionActivityPoint> = Vec::new();
        while rev.len() > 0
            invariant
                rev@.len() + points@.len() == all.len(),
                forall|j: int| 0 <= j < rev@.len() ==> rev@[j] == all[all.len() - 1 - j],
                forall|i: int|
                    0 <= i < points@.len() ==> (#[trigger] points@[i]).date == all[i].date
                        && points@[i].sessions_created == all[i].sessions_created
                        && points@[i].unique_users == all[i].unique_users,
            decreases rev@.len(),
        {
            let r = rev.pop().unwrap();
            points.push(
                SessionActivityPoint {
                    date: r.date,
                    sessions_created: r.sessions_created,
                    unique_users: r.unique_users,
                },
            );
        }
        points
    }

    /// Whether a percentage of `total` is defined: only for a positive total
    /// (the dashboard shows 0 otherwise).
    pub fn percentage_defined(total: i64) -> (b: bool)
        ensures
            b == (total > 0),
    {
        total > 0
    }
}

/// The last point of the growth series is the baseline plus every new user of
/// the window; with no negative day counts the totals never decrease.
pub proof fn lemma_growth_totals(baseline: i64, counts: Seq<i64>, i: int, j: int)
    requires
        forall|k: int| 0 <= k < counts.len() ==> counts[k] >= 0,
        0 <= i <= j <= counts.len(),
    ensures
        baseline + sum_counts(counts.take(i)) <= baseline + sum_counts(counts.take(j)),
        baseline + sum_counts(counts.take(counts.len() as int)) == baseline + sum_counts(counts),
    decreases j - i,
{
    assert(counts.take(counts.len() as int) =~= counts);
    if i < j {
        lemma_growth_totals(baseline, counts, i, j - 1);
        assert(counts.take(j).drop_last() =~= counts.take(j - 1));
    }
}

} // verus!
