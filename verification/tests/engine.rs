use std::collections::HashSet;

use temporal_ranges::driver::{generate_ranges, resolve_broadcast, BroadcastShape};
use temporal_ranges::errors::ComputeError;
use temporal_ranges::builder::ListResultBuilder;
use temporal_ranges::dates::weekday_of_day;
use temporal_ranges::ranges::{daily_range, holiday_filter, weekday_filter};

// Epoch days used by the scenarios.
const MON_2024_01_01: i32 = 19723;
const SUN_2024_01_07: i32 = 19729;
const WED_2024_01_10: i32 = 19732;
const FRI_2024_03_01: i32 = 19783;

#[test]
fn full_closed_range_with_empty_exclusions() {
    let start = vec![Some(MON_2024_01_01)];
    let end = vec![Some(SUN_2024_01_07)];
    let skip: Vec<Option<Vec<Option<i32>>>> = vec![Some(vec![])];
    let weekend: Vec<Option<Vec<Option<i64>>>> = vec![Some(vec![])];
    let out = generate_ranges(&start, &end, Some(&skip), Some(&weekend)).unwrap();
    assert_eq!(out.rows.len(), 1);
    let row = out.rows[0].as_ref().unwrap();
    assert_eq!(row.len(), 7);
    for (k, d) in row.iter().enumerate() {
        assert_eq!(*d, MON_2024_01_01 + k as i32);
    }
}

#[test]
fn start_after_end_gives_empty_sequence_not_error() {
    let start = vec![Some(SUN_2024_01_07)];
    let end = vec![Some(MON_2024_01_01)];
    let out = generate_ranges(&start, &end, None, None).unwrap();
    assert_eq!(out.rows.len(), 1);
    assert_eq!(out.rows[0], Some(vec![]));
}

#[test]
fn broadcast_single_start_across_ends() {
    let start = vec![Some(MON_2024_01_01)];
    let end = vec![
        Some(MON_2024_01_01),
        Some(MON_2024_01_01 + 1),
        Some(MON_2024_01_01 + 2),
    ];
    let out = generate_ranges(&start, &end, None, None).unwrap();
    assert_eq!(out.rows.len(), 3);
    for (i, row) in out.rows.iter().enumerate() {
        let row = row.as_ref().unwrap();
        assert_eq!(row.len(), i + 1);
        assert_eq!(row[0], MON_2024_01_01);
    }
}

#[test]
fn broadcast_single_end_across_starts() {
    let start = vec![Some(MON_2024_01_01), Some(MON_2024_01_01 + 1)];
    let end = vec![Some(SUN_2024_01_07)];
    let out = generate_ranges(&start, &end, None, None).unwrap();
    assert_eq!(out.rows.len(), 2);
    assert_eq!(out.rows[0].as_ref().unwrap().len(), 7);
    assert_eq!(out.rows[1].as_ref().unwrap().len(), 6);
}

#[test]
fn length_mismatch_identifies_both_lengths() {
    let start = vec![Some(1), Some(2), Some(3)];
    let end = vec![Some(1), Some(2), Some(3), Some(4), Some(5)];
    let err = generate_ranges(&start, &end, None, None).unwrap_err();
    assert_eq!(
        err,
        ComputeError::StartEndLengthMismatch {
            start_len: 3,
            end_len: 5
        }
    );
}

#[test]
fn resolve_broadcast_three_way_decision() {
    assert_eq!(resolve_broadcast(4, 4).unwrap(), BroadcastShape::ElementwiseZip);
    assert_eq!(resolve_broadcast(1, 4).unwrap(), BroadcastShape::BroadcastStart);
    assert_eq!(resolve_broadcast(4, 1).unwrap(), BroadcastShape::BroadcastEnd);
    assert_eq!(
        resolve_broadcast(3, 5).unwrap_err(),
        ComputeError::StartEndLengthMismatch {
            start_len: 3,
            end_len: 5
        }
    );
}

#[test]
fn null_start_or_end_nulls_only_that_row() {
    let start = vec![Some(10), None, Some(30)];
    let end = vec![Some(11), Some(21), None];
    let out = generate_ranges(&start, &end, None, None).unwrap();
    assert_eq!(out.rows.len(), 3);
    assert_eq!(out.rows[0], Some(vec![10, 11]));
    assert_eq!(out.rows[1], None);
    assert_eq!(out.rows[2], None);
}

#[test]
fn null_exclusion_cell_nulls_only_that_row() {
    let start = vec![Some(10), Some(10)];
    let end = vec![Some(11), Some(11)];
    let skip: Vec<Option<Vec<Option<i32>>>> = vec![None, Some(vec![])];
    let weekend: Vec<Option<Vec<Option<i64>>>> = vec![Some(vec![]), None];
    let out = generate_ranges(&start, &end, Some(&skip), None).unwrap();
    assert_eq!(out.rows[0], None);
    assert_eq!(out.rows[1], Some(vec![10, 11]));
    let out = generate_ranges(&start, &end, None, Some(&weekend)).unwrap();
    assert_eq!(out.rows[0], Some(vec![10, 11]));
    assert_eq!(out.rows[1], None);
}

#[test]
fn skip_set_stays_in_its_own_row() {
    let start = vec![Some(10), Some(10)];
    let end = vec![Some(12), Some(12)];
    // Row 0 skips day 11; row 1 skips nothing. Row 0's set must not leak.
    let skip: Vec<Option<Vec<Option<i32>>>> = vec![Some(vec![Some(11)]), Some(vec![])];
    let out = generate_ranges(&start, &end, Some(&skip), None).unwrap();
    assert_eq!(out.rows[0], Some(vec![10, 12]));
    assert_eq!(out.rows[1], Some(vec![10, 11, 12]));
}

#[test]
fn nested_nulls_in_exclusions_are_discarded() {
    let start = vec![Some(10)];
    let end = vec![Some(12)];
    let skip: Vec<Option<Vec<Option<i32>>>> = vec![Some(vec![None, Some(11), None, Some(11)])];
    let out = generate_ranges(&start, &end, Some(&skip), None).unwrap();
    assert_eq!(out.rows[0], Some(vec![10, 12]));
}

#[test]
fn weekend_set_keeps_only_weekdays() {
    // A 7-day window starting on a Monday with Saturday and Sunday excluded
    // holds exactly the 5 weekdays.
    let start = vec![Some(MON_2024_01_01)];
    let end = vec![Some(SUN_2024_01_07)];
    let weekend: Vec<Option<Vec<Option<i64>>>> = vec![Some(vec![Some(6), Some(7)])];
    let out = generate_ranges(&start, &end, None, Some(&weekend)).unwrap();
    let row = out.rows[0].as_ref().unwrap();
    assert_eq!(
        *row,
        vec![
            MON_2024_01_01,
            MON_2024_01_01 + 1,
            MON_2024_01_01 + 2,
            MON_2024_01_01 + 3,
            MON_2024_01_01 + 4,
        ]
    );
}

#[test]
fn scenario_week_with_weekend_exclusion() {
    let start = vec![Some(MON_2024_01_01)];
    let end = vec![Some(SUN_2024_01_07)];
    let skip: Vec<Option<Vec<Option<i32>>>> = vec![Some(vec![])];
    let weekend: Vec<Option<Vec<Option<i64>>>> = vec![Some(vec![Some(6), Some(7)])];
    let out = generate_ranges(&start, &end, Some(&skip), Some(&weekend)).unwrap();
    assert_eq!(
        out.rows[0],
        Some(vec![19723, 19724, 19725, 19726, 19727])
    );
}

#[test]
fn scenario_broadcast_two_rows() {
    let start = vec![Some(MON_2024_01_01)];
    let end = vec![Some(MON_2024_01_01), Some(WED_2024_01_10)];
    let out = generate_ranges(&start, &end, None, None).unwrap();
    assert_eq!(out.rows.len(), 2);
    assert_eq!(out.rows[0], Some(vec![MON_2024_01_01]));
    let row1 = out.rows[1].as_ref().unwrap();
    assert_eq!(row1.len(), 10);
    assert_eq!(row1[0], MON_2024_01_01);
    assert_eq!(row1[9], WED_2024_01_10);
}

#[test]
fn scenario_single_day_skipped_is_empty_not_null() {
    let start = vec![Some(FRI_2024_03_01)];
    let end = vec![Some(FRI_2024_03_01)];
    let skip: Vec<Option<Vec<Option<i32>>>> = vec![Some(vec![Some(FRI_2024_03_01)])];
    let out = generate_ranges(&start, &end, Some(&skip), None).unwrap();
    assert_eq!(out.rows[0], Some(vec![]));
}

#[test]
fn holiday_filter_is_idempotent() {
    let dates = daily_range(10, 20);
    let mut skip = HashSet::new();
    skip.insert(12);
    skip.insert(17);
    let once = holiday_filter(&dates, &skip);
    let twice = holiday_filter(&once, &skip);
    assert_eq!(once, twice);
    assert!(!once.contains(&12));
    assert!(!once.contains(&17));
    assert_eq!(once.len(), 9);
}

#[test]
fn weekday_filter_removes_by_iso_index() {
    // 19723 is a Monday: weekday 1. Remove Mondays and Thursdays.
    let dates = daily_range(MON_2024_01_01, SUN_2024_01_07);
    let mut weekend = HashSet::new();
    weekend.insert(1i64);
    weekend.insert(4i64);
    let kept = weekday_filter(&dates, &weekend);
    assert_eq!(kept, vec![19724, 19725, 19727, 19728, 19729]);
}

#[test]
fn weekday_convention_is_iso_monday_one() {
    assert_eq!(weekday_of_day(0), 4); // 1970-01-01, a Thursday
    assert_eq!(weekday_of_day(MON_2024_01_01), 1);
    assert_eq!(weekday_of_day(SUN_2024_01_07), 7);
    assert_eq!(weekday_of_day(-1), 3); // 1969-12-31, a Wednesday
    assert_eq!(weekday_of_day(i32::MIN), weekday_of_day(i32::MIN + 7));
}

#[test]
fn exclusion_columns_must_align_with_broadcast_length() {
    let start = vec![Some(10)];
    let end = vec![Some(11), Some(12)];
    let skip: Vec<Option<Vec<Option<i32>>>> = vec![Some(vec![])];
    let err = generate_ranges(&start, &end, Some(&skip), None).unwrap_err();
    assert_eq!(
        err,
        ComputeError::ExclusionLengthMismatch {
            expected: 2,
            got: 1
        }
    );
    let weekend: Vec<Option<Vec<Option<i64>>>> = vec![Some(vec![]), None, Some(vec![])];
    let err = generate_ranges(&start, &end, None, Some(&weekend)).unwrap_err();
    assert_eq!(
        err,
        ComputeError::ExclusionLengthMismatch {
            expected: 2,
            got: 3
        }
    );
}

#[test]
fn broadcast_null_scalar_nulls_every_row() {
    let start: Vec<Option<i32>> = vec![None];
    let end = vec![Some(1), Some(2), Some(3)];
    let out = generate_ranges(&start, &end, None, None).unwrap();
    assert_eq!(out.rows, vec![None, None, None]);
}

#[test]
fn empty_columns_give_empty_output() {
    let start: Vec<Option<i32>> = vec![];
    let end: Vec<Option<i32>> = vec![];
    let out = generate_ranges(&start, &end, None, None).unwrap();
    assert_eq!(out.rows.len(), 0);
}

#[test]
fn builder_accumulates_in_row_order_and_finishes_once() {
    let mut bld = ListResultBuilder::new(3);
    bld.append_sequence(vec![1, 2, 3]);
    bld.append_null();
    bld.append_nulls(2);
    bld.append_sequence(vec![]);
    // finish consumes the builder; appending afterwards cannot compile.
    let col = bld.finish();
    assert_eq!(
        col.rows,
        vec![Some(vec![1, 2, 3]), None, None, None, Some(vec![])]
    );
    assert_eq!(col.len(), 5);
}
