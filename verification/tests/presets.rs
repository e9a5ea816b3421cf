use rambots::subsystems::lift::presets::LiftPresets;

fn sample() -> LiftPresets {
    LiftPresets::new()
        .add("lowered", 0)
        .add("intake", 25)
        .add("score_low", 120)
        .add("score_mid", 200)
        .add("score_high", 285)
}

#[test]
fn presets_get_by_name() {
    let p = sample();
    assert_eq!(p.get("score_mid"), Some(200));
    assert_eq!(p.get("lowered"), Some(0));
    assert_eq!(p.get("missing"), None);
}

#[test]
fn presets_first_name_wins() {
    let p = sample().add("intake", 999);
    assert_eq!(p.get("intake"), Some(25));
    assert_eq!(p.len(), 6);
}

#[test]
fn presets_len_and_empty() {
    let p = LiftPresets::new();
    assert!(p.is_empty());
    assert_eq!(p.len(), 0);
    let d = LiftPresets::default();
    assert!(d.is_empty());
    let q = sample();
    assert!(!q.is_empty());
    assert_eq!(q.len(), 5);
}

#[test]
fn presets_names_and_iter_keep_insertion_order() {
    let p = sample();
    assert_eq!(p.names(), vec!["lowered", "intake", "score_low", "score_mid", "score_high"]);
    let it = p.iter();
    assert_eq!(it[2], ("score_low", 120));
    assert_eq!(it.len(), 5);
}

#[test]
fn presets_entry_by_index() {
    let p = sample();
    assert_eq!(p.entry(1), Some(("intake", 25)));
    assert_eq!(p.entry(5), None);
}

#[test]
fn presets_next_cycles_up_and_wraps_to_lowest() {
    let p = sample();
    assert_eq!(p.next_preset_index(30), Some(2));
    assert_eq!(p.next_preset_index(-10), Some(0));
    assert_eq!(p.next_preset_index(285), Some(0));
    assert_eq!(LiftPresets::new().next_preset_index(0), None);
}

#[test]
fn presets_next_picks_lowest_above_not_first_above() {
    let p = LiftPresets::new().add("high", 50).add("mid", 20).add("mid2", 20).add("low", 5);
    assert_eq!(p.next_preset_index(10), Some(1));
}

#[test]
fn presets_prev_cycles_down_and_wraps_to_highest() {
    let p = sample();
    assert_eq!(p.prev_preset_index(150), Some(2));
    assert_eq!(p.prev_preset_index(0), Some(4));
    assert_eq!(LiftPresets::new().prev_preset_index(0), None);
    let q = LiftPresets::new().add("a", 20).add("b", 20).add("c", 90);
    assert_eq!(q.prev_preset_index(50), Some(1));
}

#[test]
fn presets_nearest_first_of_ties() {
    let p = sample();
    let d = vec![100, 75, 20, 100, 185];
    assert_eq!(p.nearest(&d), Some("score_low"));
    let ties = vec![3, 1, 1, 9, 9];
    assert_eq!(p.nearest(&ties), Some("intake"));
    assert_eq!(LiftPresets::new().nearest(&vec![]), None);
}

#[test]
fn presets_wrap_goes_to_extremes_not_insertion_ends() {
    let p = LiftPresets::new().add("high", 20).add("low", 5);
    assert_eq!(p.next_preset_index(25), Some(1));
    assert_eq!(p.prev_preset_index(2), Some(0));
    let ties = LiftPresets::new().add("a", 9).add("b", 1).add("c", 9).add("d", 1);
    assert_eq!(ties.next_preset_index(50), Some(1));
    assert_eq!(ties.prev_preset_index(0), Some(2));
}
