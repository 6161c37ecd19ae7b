use wallch::config::{current, interval_nanos, Config, Error};
use wallch::select::pick_random;

fn base_config() -> Config {
    Config {
        dirs: vec![String::from("/a"), String::from("/b")],
        duration: None,
        active_dir: None,
        current: None,
        next: None,
    }
}

#[test]
fn normalize_fills_defaults() {
    let mut c = base_config();
    c.normalize();
    assert_eq!(c.duration, Some(String::from("10m")));
    assert_eq!(c.active_dir, Some(0));
    assert_eq!(c.dirs, vec![String::from("/a"), String::from("/b")]);
    assert_eq!(c.current, None);
    assert_eq!(c.next, None);
}

#[test]
fn normalize_keeps_present_fields() {
    let mut c = base_config();
    c.duration = Some(String::from("90s"));
    c.active_dir = Some(1);
    c.normalize();
    assert_eq!(c.duration, Some(String::from("90s")));
    assert_eq!(c.active_dir, Some(1));
}

#[test]
fn normalize_is_idempotent() {
    let mut once = base_config();
    once.normalize();
    let mut twice = once.clone();
    twice.normalize();
    assert_eq!(once, twice);
}

#[test]
fn toggle_steps_forward() {
    let mut c = base_config();
    c.active_dir = Some(0);
    c.toggle_active();
    assert_eq!(c.active_dir, Some(1));
}

#[test]
fn toggle_wraps_at_last_index() {
    let mut c = base_config();
    c.active_dir = Some(1);
    c.toggle_active();
    assert_eq!(c.active_dir, Some(0));
}

#[test]
fn toggle_full_cycle_returns_to_start() {
    let mut c = Config {
        dirs: vec![String::from("/a"), String::from("/b"), String::from("/c")],
        duration: None,
        active_dir: Some(1),
        current: None,
        next: None,
    };
    c.toggle_active();
    c.toggle_active();
    c.toggle_active();
    assert_eq!(c.active_dir, Some(1));
}

#[test]
fn toggle_with_no_dirs_lands_on_zero() {
    let mut c = base_config();
    c.dirs = Vec::new();
    c.active_dir = Some(5);
    c.toggle_active();
    assert_eq!(c.active_dir, Some(0));
}

#[test]
fn pick_random_single_file_returns_it() {
    let files = vec![String::from("/a/x.png")];
    let r = pick_random(&files);
    assert_eq!(r.unwrap(), String::from("file:///a/x.png"));
}

#[test]
fn pick_random_empty_listing_is_selection_error() {
    let files: Vec<String> = Vec::new();
    let r = pick_random(&files);
    assert!(matches!(r, Err(Error::SelectionError(_))));
}

#[test]
fn pick_random_returns_one_of_the_files() {
    let files = vec![
        String::from("/a/x.png"),
        String::from("/a/y.png"),
        String::from("/a/z.png"),
    ];
    let r = pick_random(&files).unwrap();
    assert!(
        r == String::from("file:///a/x.png")
            || r == String::from("file:///a/y.png")
            || r == String::from("file:///a/z.png")
    );
}

#[test]
fn current_strips_scheme_prefix() {
    let mut c = base_config();
    c.current = Some(String::from("file:///a/x.png"));
    assert_eq!(current(&c), Some(String::from("/a/x.png")));
}

#[test]
fn current_without_scheme_is_unchanged() {
    let mut c = base_config();
    c.current = Some(String::from("/plain/path.png"));
    assert_eq!(current(&c), Some(String::from("/plain/path.png")));
}

#[test]
fn current_strips_only_the_leading_prefix() {
    let mut c = base_config();
    c.current = Some(String::from("file://file:///x"));
    assert_eq!(current(&c), Some(String::from("file:///x")));
}

#[test]
fn current_unset_is_none() {
    let c = base_config();
    assert_eq!(current(&c), None);
}

#[test]
fn interval_parses_recorded_duration() {
    let mut c = base_config();
    c.duration = Some(String::from("90s"));
    assert_eq!(interval_nanos(&c).unwrap(), 90_000_000_000u64);
}

#[test]
fn interval_defaults_to_ten_minutes() {
    let c = base_config();
    assert_eq!(interval_nanos(&c).unwrap(), 600_000_000_000u64);
}

#[test]
fn interval_rejects_malformed_duration() {
    let mut c = base_config();
    c.duration = Some(String::from("soon"));
    let r = interval_nanos(&c);
    assert!(matches!(r, Err(Error::ConfigError(_))));
}

#[test]
fn check_wf_accepts_matching_record() {
    let mut c = base_config();
    c.active_dir = Some(1);
    c.next = Some(vec![
        String::from("file:///a/x.png"),
        String::from("file:///b/y.png"),
    ]);
    assert!(c.check_wf());
}

#[test]
fn check_wf_rejects_bad_active_index() {
    let mut c = base_config();
    c.active_dir = Some(2);
    assert!(!c.check_wf());
}

#[test]
fn check_wf_rejects_short_candidate_list() {
    let mut c = base_config();
    c.next = Some(vec![String::from("file:///a/x.png")]);
    assert!(!c.check_wf());
}
