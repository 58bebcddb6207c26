use vstd::prelude::*;
use crate::dates::{
    Date, valid_date, spec_parse_date, spec_day_number, spec_weekday_from_monday,
    lemma_day_number_bounds, parse_date, DAY_NUMBER_LIMIT,
};

verus! {

// Habit metrics are pure functions over a habit's completion dates and an
// injected "today"; they are recomputed on every read and never stored.

/// Views of a sequence of strings.
pub open spec fn str_views(v: Seq<String>) -> Seq<Seq<char>> {
    v.map_values(|s: String| s@)
}

/// The set of day numbers denoted by the parseable dates of the input;
/// strings that do not parse as calendar dates are ignored.
pub open spec fn day_num_set(ss: Seq<Seq<char>>) -> Set<int> {
    Set::new(
        |dn: int|
            exists|i: int|
                0 <= i < ss.len() && ((#[trigger] spec_parse_date(ss[i])) matches Some(d)
                    && spec_day_number(d) == dn),
    )
}

/// `n` is the streak length anchored at `anchor`: every day walking back from
/// `anchor` for `n` days is in the set, and the day before those is not.
pub open spec fn is_streak_len(s: Set<int>, anchor: int, n: int) -> bool {
    &&& forall|k: int| 0 <= k < n ==> #[trigger] s.contains(anchor - k)
    &&& !s.contains(anchor - n)
}

/// How many of the `k` days starting at `start` are in the set.
pub open spec fn spec_count_in_window(s: Set<int>, start: int, k: nat) -> int
    decreases k,
{
    if k == 0 {
        0
    } else {
        spec_count_in_window(s, start, (k - 1) as nat) + if s.contains(start + k - 1) {
            1int
        } else {
            0int
        }
    }
}

/// Day numbers of the parseable dates among the input strings.
fn parse_day_numbers(dates: &Vec<String>) -> (r: Vec<i64>)
    ensures
        forall|x: i64| r@.contains(x) <==> day_num_set(str_views(dates@)).contains(x as int),
        forall|j: int| 0 <= j < r@.len() ==> 0 <= #[trigger] r@[j] < DAY_NUMBER_LIMIT,
{
    let ghost ss = str_views(dates@);
    let mut r: Vec<i64> = Vec::new();
    let n = dates.len();
    let mut i: usize = 0;
    while i < n
        invariant
            n == dates@.len(),
            ss == str_views(dates@),
            i <= n,
            forall|x: i64| r@.contains(x) <==> Set::new(
                |dn: int|
                    exists|q: int|
                        0 <= q < i && ((#[trigger] spec_parse_date(ss[q])) matches Some(d)
                            && spec_day_number(d) == dn),
            ).contains(x as int),
            forall|j: int| 0 <= j < r@.len() ==> 0 <= #[trigger] r@[j] < DAY_NUMBER_LIMIT,
        decreases n - i,
    {
        let ghost r_old = r@;
        match parse_date(dates[i].as_str()) {
            Some(d) => {
                proof {
                    lemma_day_number_bounds(d);
                }
                let dn = d.day_number();
                r.push(dn);
                proof {
                    assert(ss[i as int] == dates@[i as int]@);
                    assert forall|x: i64|
                        r@.contains(x) <==> Set::new(
                            |dn2: int|
                                exists|q: int|
                                    0 <= q < i + 1 && ((#[trigger] spec_parse_date(ss[q])) matches
                                        Some(d2) && spec_day_number(d2) == dn2),
                        ).contains(x as int) by {
                        if r@.contains(x) {
                            let j = choose|j: int| 0 <= j < r@.len() && r@[j] == x;
                            if j < r_old.len() {
                                assert(r_old.contains(x));
                            } else {
                                assert(x == dn);
                            }
                        }
                        if Set::new(
                            |dn2: int|
                                exists|q: int|
                                    0 <= q < i + 1 && ((#[trigger] spec_parse_date(ss[q])) matches
                                        Some(d2) && spec_day_number(d2) == dn2),
                        ).contains(x as int) {
                            let q = choose|q: int|
                                0 <= q < i + 1 && ((#[trigger] spec_parse_date(ss[q])) matches
                                    Some(d2) && spec_day_number(d2) == x as int);
                            if q < i {
                                assert(r_old.contains(x));
                                let j = choose|j: int| 0 <= j < r_old.len() && r_old[j] == x;
                                assert(r@[j] == x);
                            } else {
                                assert(r@[r@.len() - 1] == x);
                            }
                        }
                    }
                }
            },
            None => {
                proof {
                    assert(ss[i as int] == dates@[i as int]@);
                    assert forall|x: i64|
                        r@.contains(x) <==> Set::new(
                            |dn2: int|
                                exists|q: int|
                                    0 <= q < i + 1 && ((#[trigger] spec_parse_date(ss[q])) matches
                                        Some(d2) && spec_day_number(d2) == dn2),
                        ).contains(x as int) by {
                        if Set::new(
                            |dn2: int|
                                exists|q: int|
                                    0 <= q < i + 1 && ((#[trigger] spec_parse_date(ss[q])) matches
                                        Some(d2) && spec_day_number(d2) == dn2),
                        ).contains(x as int) {
                            let q = choose|q: int|
                                0 <= q < i + 1 && ((#[trigger] spec_parse_date(ss[q])) matches
                                    Some(d2) && spec_day_number(d2) == x as int);
                            assert(q < i);
                        }
                    }
                }
            },
        }
        i = i + 1;
    }
    proof {
        assert forall|x: i64|
            r@.contains(x) <==> day_num_set(ss).contains(x as int) by {
            assert(day_num_set(ss) =~= Set::new(
                |dn: int|
                    exists|q: int|
                        0 <= q < n && ((#[trigger] spec_parse_date(ss[q])) matches Some(d)
                            && spec_day_number(d) == dn),
            ));
        }
    }
    r
}

/// Linear membership scan.
fn contains_day(v: &Vec<i64>, x: i64) -> (r: bool)
    ensures
        r == v@.contains(x),
{
    let n = v.len();
    let mut i: usize = 0;
    while i < n
        invariant
            n == v@.len(),
            i <= n,
            forall|j: int| 0 <= j < i ==> v@[j] != x,
        decreases n - i,
    {
        if v[i] == x {
            return true;
        }
        i = i + 1;
    }
    false
}

/// The current streak of a habit: consecutive days with a completion,
/// counted backward from today when today has one, from yesterday when only
/// yesterday has one (today-with-no-log-yet does not break the streak), and
/// zero otherwise.
pub fn compute_current_streak(completed_dates: &Vec<String>, today: &Date) -> (r: i64)
    requires
        valid_date(*today),
    ensures
        ({
            let s = day_num_set(str_views(completed_dates@));
            let t = spec_day_number(*today);
            &&& r >= 0
            &&& (!s.contains(t) && !s.contains(t - 1)) ==> r == 0
            &&& s.contains(t) ==> is_streak_len(s, t, r as int)
            &&& (!s.contains(t) && s.contains(t - 1)) ==> is_streak_len(s, t - 1, r as int)
        }),
{
    let ghost s = day_num_set(str_views(completed_dates@));
    let parsed = parse_day_numbers(completed_dates);
    proof {
        assert forall|dn: int| s.contains(dn) implies 0 <= dn < DAY_NUMBER_LIMIT as int by {
            assert(parsed@.contains(dn as i64) || dn != dn as i64 as int);
            if dn == dn as i64 as int {
                let j = choose|j: int| 0 <= j < parsed@.len() && parsed@[j] == dn as i64;
            } else {
                let q = choose|q: int|
                    0 <= q < str_views(completed_dates@).len() && ((#[trigger] spec_parse_date(
                        str_views(completed_dates@)[q],
                    )) matches Some(d) && spec_day_number(d) == dn);
                let d = spec_parse_date(str_views(completed_dates@)[q]).unwrap();
                lemma_day_number_bounds(d);
                assert(dn == dn as i64 as int);
            }
        }
    }
    let t = today.day_number();
    let anchor: i64;
    if contains_day(&parsed, t) {
        anchor = t;
    } else if contains_day(&parsed, t - 1) {
        anchor = t - 1;
    } else {
        return 0;
    }
    let mut n: i64 = 0;
    while contains_day(&parsed, anchor - n)
        invariant
            0 <= anchor < DAY_NUMBER_LIMIT,
            0 <= n <= anchor + 1,
            forall|x: i64| parsed@.contains(x) <==> s.contains(x as int),
            forall|dn: int| s.contains(dn) ==> 0 <= dn < DAY_NUMBER_LIMIT as int,
            forall|k: int| 0 <= k < n ==> #[trigger] s.contains(anchor - k),
        decreases anchor + 1 - n,
    {
        proof {
            assert(s.contains((anchor - n) as int));
            if n == anchor + 1 {
                assert(s.contains(-1));
                assert(false);
            }
        }
        n = n + 1;
    }
    n
}

/// How many completion dates fall in the Monday-to-Sunday week containing
/// today, inclusive.
pub fn compute_this_week_count(completed_dates: &Vec<String>, today: &Date) -> (r: i64)
    requires
        valid_date(*today),
    ensures
        ({
            let s = day_num_set(str_views(completed_dates@));
            let t = spec_day_number(*today);
            let ws = t - spec_weekday_from_monday(t);
            r as int == spec_count_in_window(s, ws, 7)
        }),
        0 <= r <= 7,
{
    let ghost s = day_num_set(str_views(completed_dates@));
    let parsed = parse_day_numbers(completed_dates);
    let t = today.day_number();
    let wd = today.days_from_monday();
    let ws = t - wd;
    let mut count: i64 = 0;
    let mut k: i64 = 0;
    while k < 7
        invariant
            0 <= k <= 7,
            0 <= count <= k,
            -7 <= ws < DAY_NUMBER_LIMIT,
            forall|x: i64| parsed@.contains(x) <==> s.contains(x as int),
            count as int == spec_count_in_window(s, ws as int, k as nat),
        decreases 7 - k,
    {
        if contains_day(&parsed, ws + k) {
            count = count + 1;
        }
        k = k + 1;
    }
    count
}

} // verus!
