use workspace_store::names::{
    decimal_text, workspace_broken_backup_path, workspace_file_name, workspace_temp_path,
};

#[test]
fn decimal_of_zero() {
    assert_eq!(decimal_text(0), "0");
}

#[test]
fn decimal_of_single_digits() {
    assert_eq!(decimal_text(7), "7");
    assert_eq!(decimal_text(9), "9");
}

#[test]
fn decimal_round_numbers() {
    assert_eq!(decimal_text(10), "10");
    assert_eq!(decimal_text(100), "100");
    assert_eq!(decimal_text(1000000), "1000000");
}

#[test]
fn decimal_keeps_inner_zeros() {
    assert_eq!(decimal_text(1002003), "1002003");
}

#[test]
fn decimal_of_a_time_stamp() {
    assert_eq!(decimal_text(1700000000123), "1700000000123");
}

#[test]
fn decimal_of_the_largest_number() {
    assert_eq!(decimal_text(u128::MAX), "340282366920938463463374607431768211455");
    assert_eq!(decimal_text(u128::MAX), u128::MAX.to_string());
}

#[test]
fn decimal_agrees_with_std() {
    let mut n: u128 = 1;
    for _ in 0..38 {
        assert_eq!(decimal_text(n), n.to_string());
        assert_eq!(decimal_text(n - 1), (n - 1).to_string());
        n *= 10;
    }
}

#[test]
fn the_workspace_file_is_workspace_json() {
    assert_eq!(workspace_file_name(), "workspace.json");
}

#[test]
fn backup_name_carries_the_time() {
    assert_eq!(workspace_broken_backup_path(1700000000123), "workspace.json.broken-1700000000123");
}

#[test]
fn backup_name_at_the_epoch() {
    assert_eq!(workspace_broken_backup_path(0), "workspace.json.broken-0");
}

#[test]
fn temp_name_carries_the_time() {
    assert_eq!(workspace_temp_path(1700000000123), "workspace.json.tmp-1700000000123");
    assert_eq!(workspace_temp_path(0), "workspace.json.tmp-0");
}

#[test]
fn the_three_names_differ() {
    for millis in [0u128, 1, 42, 1700000000123, u128::MAX] {
        assert_ne!(workspace_temp_path(millis), workspace_file_name());
        assert_ne!(workspace_broken_backup_path(millis), workspace_file_name());
        assert_ne!(workspace_temp_path(millis), workspace_broken_backup_path(millis));
    }
}
