use gitpulse::day::{clone_days, ContributionDay, FetchResult};

#[test]
fn day_keeps_its_fields() {
    let day = ContributionDay::new("2024-03-01".to_string(), 42).unwrap();
    assert_eq!(day.date(), "2024-03-01");
    assert_eq!(day.contribution_count(), 42);
    let copy = day.clone();
    assert_eq!(copy.date(), "2024-03-01");
    assert_eq!(copy.contribution_count(), 42);
}

#[test]
fn day_with_a_negative_count_cannot_be_made() {
    assert!(ContributionDay::new("2024-03-01".to_string(), -1).is_none());
    assert!(ContributionDay::new(String::new(), i32::MIN).is_none());
}

#[test]
fn day_may_have_the_count_zero_or_the_largest() {
    assert_eq!(ContributionDay::new("d".to_string(), 0).unwrap().contribution_count(), 0);
    assert_eq!(ContributionDay::new("d".to_string(), i32::MAX).unwrap().contribution_count(), i32::MAX);
}

#[test]
fn days_are_copied_in_order() {
    let days = vec![
        ContributionDay::new("a".to_string(), 1).unwrap(),
        ContributionDay::new("b".to_string(), 2).unwrap(),
    ];
    let copy = clone_days(&days);
    assert_eq!(copy.len(), 2);
    assert_eq!((copy[0].date().as_str(), copy[0].contribution_count()), ("a", 1));
    assert_eq!((copy[1].date().as_str(), copy[1].contribution_count()), ("b", 2));
    assert!(clone_days(&Vec::new()).is_empty());
}

#[test]
fn success_holds_data_and_no_error() {
    let result = FetchResult::success(vec![ContributionDay::new("a".to_string(), 1).unwrap()]);
    assert!(result.ok());
    assert_eq!(result.data().unwrap().len(), 1);
    assert_eq!(result.data().unwrap()[0].date(), "a");
    assert!(result.error().is_none());
}

#[test]
fn success_may_hold_no_days() {
    let result = FetchResult::success(Vec::new());
    assert!(result.ok());
    assert!(result.data().unwrap().is_empty());
    assert!(result.error().is_none());
}

#[test]
fn failure_holds_the_error_and_no_data() {
    let result = FetchResult::failure("Network error: down".to_string());
    assert!(!result.ok());
    assert!(result.data().is_none());
    assert_eq!(result.error().unwrap(), "Network error: down");
}
