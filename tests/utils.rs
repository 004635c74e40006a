use mlop_ingest::text::log_group_from_log_name;

#[test]
fn test_log_group_from_log_name() {
    assert_eq!(log_group_from_log_name("a/b/c"), "a/b");
    assert_eq!(log_group_from_log_name("a/b/c/d/e"), "a/b/c/d");
}

#[test]
fn test_log_group_from_log_name_empty() {
    assert_eq!(log_group_from_log_name(""), "");
}

#[test]
fn test_no_log_group() {
    assert_eq!(log_group_from_log_name("test-metric"), "");
}

#[test]
fn log_group_is_prefix_before_last_slash() {
    assert_eq!(log_group_from_log_name("val/epoch/loss"), "val/epoch");
    assert_eq!(log_group_from_log_name("loss"), "");
    assert_eq!(log_group_from_log_name("/loss"), "");
    assert_eq!(log_group_from_log_name("a//"), "a/");
    assert_eq!(log_group_from_log_name("é/ü"), "é");
}

#[test]
fn log_group_is_deterministic() {
    let a = log_group_from_log_name("x/y/z");
    let b = log_group_from_log_name("x/y/z");
    assert_eq!(a, b);
}
