//! Six-digit report numbers, and the repair of stored data that they rest on.

use vstd::prelude::*;

use crate::models::{
    normal_level, normalize_level, report_views, ReportRecord, ReportRecordView, StoreData,
    StoreDataView, UserRecordView,
};

verus! {

/// The first report number.
pub const FIRST_REPORT_NUM: u32 = 100_000;

/// The last report number.
pub const LAST_REPORT_NUM: u32 = 999_999;

/// How many report numbers there are.
pub const REPORT_NUM_COUNT: u32 = 900_000;

/// A number of six digits.
pub open spec fn is_report_num(n: u32) -> bool {
    FIRST_REPORT_NUM <= n <= LAST_REPORT_NUM
}

/// A user whose level is the one that the stored number means.
pub open spec fn with_normal_level(u: UserRecordView) -> UserRecordView {
    UserRecordView { level: normal_level(u.level), ..u }
}

/// Stored data after repair: a layout version, a six-digit start for the next
/// report number, and users with normal levels.
pub open spec fn normalized(d: StoreDataView) -> StoreDataView {
    StoreDataView {
        schema_version: if d.schema_version == 0 {
            1
        } else {
            d.schema_version
        },
        next_report_num: if is_report_num(d.next_report_num) {
            d.next_report_num
        } else {
            FIRST_REPORT_NUM
        },
        users: d.users.map_values(|u: UserRecordView| with_normal_level(u)),
        ..d
    }
}

/// Repairs stored data.
pub fn normalize_store(d: &mut StoreData)
    ensures
        final(d)@ == normalized(old(d)@),
{
    if d.schema_version == 0 {
        d.schema_version = 1;
    }
    if d.next_report_num < FIRST_REPORT_NUM || d.next_report_num > LAST_REPORT_NUM {
        d.next_report_num = FIRST_REPORT_NUM;
    }
    let ghost start = *d;
    let mut i: usize = 0;
    while i < d.users.len()
        invariant
            i <= d.users@.len(),
            d.users@.len() == start.users@.len(),
            d.schema_version == start.schema_version,
            d.next_report_num == start.next_report_num,
            d.gpio_config == start.gpio_config,
            d.reports == start.reports,
            forall|k: int|
                0 <= k < i ==> #[trigger] d.users@[k]@ == with_normal_level(start.users@[k]@),
            forall|k: int| i <= k < d.users@.len() ==> #[trigger] d.users@[k] == start.users@[k],
        decreases d.users@.len() - i,
    {
        let level = normalize_level(d.users[i].level);
        d.users[i].level = level;
        i += 1;
    }
    assert(d@.users =~= normalized(old(d)@).users);
}

/// A report has the number.
pub open spec fn num_taken(reports: Seq<ReportRecordView>, num: u32) -> bool {
    exists|i: int| 0 <= i < reports.len() && #[trigger] reports[i].num == num
}

/// The `k`-th number after `start`, where the first follows the last.
pub open spec fn num_after(start: u32, k: int) -> u32 {
    (FIRST_REPORT_NUM + (start - FIRST_REPORT_NUM + k) % (REPORT_NUM_COUNT as int)) as u32
}

/// How far after `start` the first number lies that no report has, counting
/// from `k`; none where all are taken.
pub open spec fn free_distance(reports: Seq<ReportRecordView>, start: u32, k: int) -> Option<int>
    decreases REPORT_NUM_COUNT - k,
{
    if k >= REPORT_NUM_COUNT {
        None
    } else if !num_taken(reports, num_after(start, k)) {
        Some(k)
    } else {
        free_distance(reports, start, k + 1)
    }
}

/// The number that the next report gets: the first free one at or after the
/// stored start, or the first of all where every number is taken.
pub open spec fn next_num(d: StoreDataView) -> u32 {
    let n = normalized(d);
    match free_distance(n.reports, n.next_report_num, 0) {
        Some(k) => num_after(n.next_report_num, k),
        None => FIRST_REPORT_NUM,
    }
}

/// Stored data after a number was handed out: repaired, with the search
/// starting behind that number next time.
pub open spec fn after_allocation(d: StoreDataView) -> StoreDataView {
    let n = normalized(d);
    match free_distance(n.reports, n.next_report_num, 0) {
        Some(k) => StoreDataView { next_report_num: num_after(n.next_report_num, k + 1), ..n },
        None => n,
    }
}

/// Whether a report has the number.
fn is_num_taken(reports: &Vec<ReportRecord>, num: u32) -> (r: bool)
    ensures
        r == num_taken(report_views(reports@), num),
{
    let mut i: usize = 0;
    while i < reports.len()
        invariant
            i <= reports@.len(),
            forall|k: int| 0 <= k < i ==> #[trigger] report_views(reports@)[k].num != num,
        decreases reports@.len() - i,
    {
        if reports[i].num == num {
            assert(report_views(reports@)[i as int].num == num);
            return true;
        }
        i += 1;
    }
    false
}

/// Hands out a report number.
pub fn allocate_report_num(d: &mut StoreData) -> (r: u32)
    ensures
        r == next_num(old(d)@),
        final(d)@ == after_allocation(old(d)@),
{
    normalize_store(d);
    let ghost n = d@;
    let start: u32 = d.next_report_num;
    let mut candidate: u32 = start;
    let mut k: u32 = 0;
    while k < REPORT_NUM_COUNT
        invariant
            n == normalized(old(d)@),
            d@ == n,
            start == n.next_report_num,
            is_report_num(start),
            is_report_num(candidate),
            k <= REPORT_NUM_COUNT,
            candidate == num_after(start, k as int),
            free_distance(n.reports, start, 0) == free_distance(n.reports, start, k as int),
        decreases REPORT_NUM_COUNT - k,
    {
        let taken = is_num_taken(&d.reports, candidate);
        let next: u32 = if candidate + 1 > LAST_REPORT_NUM {
            FIRST_REPORT_NUM
        } else {
            candidate + 1
        };
        assert(next == num_after(start, k + 1));
        if !taken {
            d.next_report_num = next;
            assert(d@ == after_allocation(old(d)@));
            return candidate;
        }
        candidate = next;
        k += 1;
    }
    FIRST_REPORT_NUM
}

pub(crate) proof fn lemma_free_distance(reports: Seq<ReportRecordView>, start: u32, k: int)
    requires
        0 <= k <= REPORT_NUM_COUNT,
    ensures
        match free_distance(reports, start, k) {
            Some(j) => {
                &&& k <= j < REPORT_NUM_COUNT
                &&& !num_taken(reports, num_after(start, j))
                &&& forall|i: int|
                    k <= i < j ==> num_taken(reports, #[trigger] num_after(start, i))
            },
            None => forall|i: int|
                k <= i < REPORT_NUM_COUNT ==> num_taken(reports, #[trigger] num_after(start, i)),
        },
    decreases REPORT_NUM_COUNT - k,
{
    if k < REPORT_NUM_COUNT {
        lemma_free_distance(reports, start, k + 1);
    }
}

/// Every six-digit number comes up in a walk of all of them.
proof fn lemma_walk_reaches(start: u32, num: u32) -> (k: int)
    requires
        is_report_num(start),
        is_report_num(num),
    ensures
        0 <= k < REPORT_NUM_COUNT,
        num_after(start, k) == num,
{
    if num >= start {
        num - start
    } else {
        num - start + REPORT_NUM_COUNT
    }
}

/// All numbers are taken only where there are as many reports as numbers.
proof fn lemma_all_taken_needs_all_reports(reports: Seq<ReportRecordView>, start: u32)
    requires
        is_report_num(start),
        free_distance(reports, start, 0) is None,
    ensures
        reports.len() >= REPORT_NUM_COUNT,
{
    lemma_free_distance(reports, start, 0);
    let nums = reports.map_values(|r: ReportRecordView| r.num as int);
    let all = vstd::set_lib::set_int_range(
        FIRST_REPORT_NUM as int,
        FIRST_REPORT_NUM + REPORT_NUM_COUNT,
    );
    vstd::set_lib::lemma_int_range(FIRST_REPORT_NUM as int, FIRST_REPORT_NUM + REPORT_NUM_COUNT);
    assert forall|n: int| all.contains(n) implies nums.to_set().contains(n) by {
        let k = lemma_walk_reaches(start, n as u32);
        assert(num_taken(reports, num_after(start, k)));
        let i = choose|i: int| 0 <= i < reports.len() && #[trigger] reports[i].num == n as u32;
        assert(nums[i] == n);
    }
    vstd::set_lib::lemma_len_subset(all, nums.to_set());
    nums.lemma_cardinality_of_set();
}

/// A report number has six digits, and so has the next start of the search.
/// While there are fewer reports than numbers, no report has the number yet.
pub proof fn lemma_next_num(d: StoreDataView)
    ensures
        is_report_num(next_num(d)),
        is_report_num(after_allocation(d).next_report_num),
        d.reports.len() < REPORT_NUM_COUNT ==> !num_taken(d.reports, next_num(d)),
{
    let n = normalized(d);
    lemma_free_distance(n.reports, n.next_report_num, 0);
    if free_distance(n.reports, n.next_report_num, 0) is None {
        lemma_all_taken_needs_all_reports(n.reports, n.next_report_num);
    }
}

/// While there are fewer reports than numbers, some number is free.
pub(crate) proof fn lemma_all_taken_needs_all_reports_if(
    reports: Seq<ReportRecordView>,
    start: u32,
)
    requires
        is_report_num(start),
        reports.len() < REPORT_NUM_COUNT,
    ensures
        free_distance(reports, start, 0) is Some,
{
    if free_distance(reports, start, 0) is None {
        lemma_all_taken_needs_all_reports(reports, start);
    }
}

/// The number handed out is the first free one: all that lie between the start
/// and it are taken.
pub proof fn lemma_next_num_is_first_free(d: StoreDataView, k: int)
    requires
        0 <= k,
        !num_taken(d.reports, num_after(normalized(d).next_report_num, k)),
        k < REPORT_NUM_COUNT,
    ensures
        exists|j: int|
            0 <= j <= k && next_num(d) == #[trigger] num_after(normalized(d).next_report_num, j),
{
    lemma_free_distance(d.reports, normalized(d).next_report_num, 0);
}

/// Repairing repaired data changes nothing.
pub proof fn lemma_normalized_twice(d: StoreDataView)
    ensures
        normalized(normalized(d)) == normalized(d),
{
    assert(normalized(normalized(d)).users =~= normalized(d).users);
}

} // verus!
