use stock_stats::stats::{max, min, moving_average, percent_change, Ratio};

fn ratio_value(r: Ratio) -> f64 {
    r.num as f64 / r.den as f64
}

#[test]
fn minimum_of_empty_is_absent() {
    let series: Vec<i64> = vec![];
    assert_eq!(min(&series), None);
}

#[test]
fn minimum_and_maximum_of_small_series() {
    let series: Vec<i64> = vec![3, 1, 2];
    assert_eq!(min(&series), Some(1));
    assert_eq!(max(&series), Some(3));
}

#[test]
fn maximum_of_empty_is_absent() {
    let series: Vec<i64> = vec![];
    assert_eq!(max(&series), None);
}

#[test]
fn minimum_and_maximum_of_single_element() {
    let series: Vec<i64> = vec![7];
    assert_eq!(min(&series), Some(7));
    assert_eq!(max(&series), Some(7));
}

#[test]
fn minimum_and_maximum_with_negative_values() {
    let series: Vec<i64> = vec![-5, 3, -9, 4];
    assert_eq!(min(&series), Some(-9));
    assert_eq!(max(&series), Some(4));
}

#[test]
fn percent_change_of_empty_is_absent() {
    let series: Vec<i64> = vec![];
    assert_eq!(percent_change(&series), None);
}

#[test]
fn percent_change_of_doubling_is_one_hundred() {
    let series: Vec<i64> = vec![10, 20];
    let r = percent_change(&series).unwrap();
    assert_eq!(r, Ratio { num: 1000, den: 10 });
    assert_eq!(ratio_value(r), 100.0);
}

#[test]
fn percent_change_with_zero_baseline_substitutes_one() {
    let series: Vec<i64> = vec![0, 5];
    let r = percent_change(&series).unwrap();
    assert_eq!(r, Ratio { num: 500, den: 1 });
    assert_eq!(ratio_value(r), 500.0);
}

#[test]
fn percent_change_with_negative_baseline() {
    let series: Vec<i64> = vec![-10, 10];
    let r = percent_change(&series).unwrap();
    assert_eq!(r, Ratio { num: 2000, den: -10 });
    assert_eq!(ratio_value(r), -200.0);
}

#[test]
fn moving_average_of_four_by_three() {
    let series: Vec<i64> = vec![1, 2, 3, 4];
    let avgs = moving_average(&series, 3).unwrap();
    assert_eq!(avgs, vec![Ratio { num: 6, den: 3 }, Ratio { num: 9, den: 3 }]);
    let values: Vec<f64> = avgs.into_iter().map(ratio_value).collect();
    assert_eq!(values, vec![2.0, 3.0]);
}

#[test]
fn moving_average_of_short_series_is_empty_not_absent() {
    let series: Vec<i64> = vec![1, 2];
    let avgs = moving_average(&series, 3);
    assert_eq!(avgs, Some(vec![]));
}

#[test]
fn moving_average_of_empty_is_absent() {
    let series: Vec<i64> = vec![];
    assert_eq!(moving_average(&series, 3), None);
}

#[test]
fn moving_average_with_zero_window_is_absent() {
    let series: Vec<i64> = vec![1, 2, 3];
    assert_eq!(moving_average(&series, 0), None);
}

#[test]
fn moving_average_with_window_equal_to_length() {
    let series: Vec<i64> = vec![1, 2, 3];
    let avgs = moving_average(&series, 3).unwrap();
    assert_eq!(avgs, vec![Ratio { num: 6, den: 3 }]);
}

#[test]
fn minimum_is_at_most_maximum_and_both_lie_in_range() {
    let series: Vec<i64> = vec![12, -3, 44, 0, 7];
    let lo = min(&series).unwrap();
    let hi = max(&series).unwrap();
    assert!(lo <= hi);
    assert!(series.contains(&lo));
    assert!(series.contains(&hi));
    for v in &series {
        assert!(lo <= *v && *v <= hi);
    }
}

#[test]
fn repeated_calls_yield_identical_results() {
    let series: Vec<i64> = vec![100, 105, 98, 110];
    assert_eq!(min(&series), min(&series));
    assert_eq!(max(&series), max(&series));
    assert_eq!(percent_change(&series), percent_change(&series));
    assert_eq!(moving_average(&series, 3), moving_average(&series, 3));
}
