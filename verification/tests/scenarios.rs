use wallch::config::{current, Config};
use wallch::select::{get_next, pick_random};

fn two_dir_config() -> Config {
    Config {
        dirs: vec![String::from("/a"), String::from("/b")],
        duration: Some(String::from("10m")),
        active_dir: Some(0),
        current: None,
        next: None,
    }
}

#[test]
fn advance_records_pick_from_active_dir() {
    // dirs = ["/a", "/b"], active_dir = 0; "/a" holds exactly "x.png".
    let mut c = two_dir_config();
    let listing_of_a = vec![String::from("/a/x.png")];
    let picked = pick_random(&listing_of_a).unwrap();
    c.record_current(picked);
    assert_eq!(c.current, Some(String::from("file:///a/x.png")));
    assert_eq!(current(&c), Some(String::from("/a/x.png")));
    assert_eq!(c.active_index(), 0);
}

#[test]
fn toggle_switches_to_second_dir_and_picks_there() {
    let mut c = two_dir_config();
    c.toggle_active();
    assert_eq!(c.active_dir, Some(1));
    let listing_of_b = vec![String::from("/b/y.png")];
    let picked = pick_random(&listing_of_b).unwrap();
    c.record_current(picked);
    assert_eq!(c.current, Some(String::from("file:///b/y.png")));
    assert_eq!(current(&c), Some(String::from("/b/y.png")));
}

#[test]
fn get_next_returns_cached_candidate_for_active_dir() {
    let mut c = two_dir_config();
    c.active_dir = Some(1);
    c.next = Some(vec![
        String::from("file:///a/x.png"),
        String::from("file:///b/y.png"),
    ]);
    assert!(c.check_wf());
    let r = get_next(&c).unwrap();
    assert_eq!(r, String::from("file:///b/y.png"));
}

#[test]
fn record_current_overwrites_previous_selection() {
    let mut c = two_dir_config();
    c.record_current(String::from("file:///a/x.png"));
    c.record_current(String::from("file:///a/z.png"));
    assert_eq!(c.current, Some(String::from("file:///a/z.png")));
}
