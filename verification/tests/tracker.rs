use azvm_manager::{contains_str, eq_ignore_ascii_case, name_in, StatePollTracker};

fn names(list: &[&str]) -> Vec<String> {
    list.iter().map(|s| s.to_string()).collect()
}

#[test]
fn all_matching_statuses_converge_in_one_round() {
    let mut t = StatePollTracker::new(&names(&["vm-a", "vm-b", "vm-c"]));
    assert_eq!(t.total(), 3);
    assert_eq!(t.completed(), 0);
    let statuses = names(&["VM running", "VM running", "VM running"]);
    let newly = t.record_round(&statuses, "VM running");
    assert_eq!(newly, 3);
    assert_eq!(t.completed(), 3);
    assert!(t.is_done());
    assert!(t.remaining_names().is_empty());
}

#[test]
fn partition_invariant_holds_after_every_round() {
    let mut t = StatePollTracker::new(&names(&["vm-a", "vm-b", "vm-c", "vm-d"]));
    assert_eq!(t.completed() + t.remaining_names().len(), t.total());

    let newly = t.record_round(
        &names(&["VM running", "VM starting", "VM running", "VM starting"]),
        "VM running",
    );
    assert_eq!(newly, 2);
    assert_eq!(t.completed() + t.remaining_names().len(), t.total());
    assert_eq!(t.remaining_names(), &names(&["vm-b", "vm-d"]));

    let newly = t.record_round(&names(&["VM starting", "VM running"]), "VM running");
    assert_eq!(newly, 1);
    assert_eq!(t.completed() + t.remaining_names().len(), t.total());
    assert_eq!(t.remaining_names(), &names(&["vm-b"]));

    let newly = t.record_round(&names(&["VM running"]), "VM running");
    assert_eq!(newly, 1);
    assert_eq!(t.completed() + t.remaining_names().len(), t.total());
    assert!(t.is_done());
}

#[test]
fn two_machines_converge_over_three_rounds() {
    let mut t = StatePollTracker::new(&names(&["vm-a", "vm-b"]));
    let target = "VM running";

    let newly = t.record_round(&names(&["VM starting", "VM starting"]), target);
    assert_eq!(newly, 0);
    assert_eq!(t.completed(), 0);
    assert_eq!(t.remaining_names(), &names(&["vm-a", "vm-b"]));

    let newly = t.record_round(&names(&["VM running", "VM starting"]), target);
    assert_eq!(newly, 1);
    assert_eq!(t.completed(), 1);
    assert_eq!(t.remaining_names(), &names(&["vm-b"]));

    let newly = t.record_round(&names(&["VM running"]), target);
    assert_eq!(newly, 1);
    assert_eq!(t.completed(), 2);
    assert!(t.remaining_names().is_empty());
    assert!(t.is_done());
}

#[test]
fn repeated_names_count_once() {
    let t = StatePollTracker::new(&names(&["vm-a", "vm-b", "vm-a"]));
    assert_eq!(t.total(), 2);
    assert_eq!(t.remaining_names(), &names(&["vm-a", "vm-b"]));
}

#[test]
fn empty_batch_is_done_at_once() {
    let t = StatePollTracker::new(&Vec::new());
    assert_eq!(t.total(), 0);
    assert!(t.is_done());
}

#[test]
fn status_match_is_by_substring() {
    let mut t = StatePollTracker::new(&names(&["vm-a"]));
    let newly = t.record_round(
        &names(&["Provisioning succeeded; VM running (agent ready)"]),
        "VM running",
    );
    assert_eq!(newly, 1);
    assert!(t.is_done());
}

#[test]
fn contains_str_finds_substrings() {
    assert!(contains_str("VM running", "VM running"));
    assert!(contains_str("VM running", "running"));
    assert!(contains_str("VM running", ""));
    assert!(!contains_str("VM starting", "VM running"));
    assert!(!contains_str("run", "running"));
    assert!(!contains_str("", "x"));
}

#[test]
fn name_membership_is_by_contents() {
    let v = names(&["vm-a", "vm-b"]);
    assert!(name_in(&v, &"vm-a".to_string()));
    assert!(name_in(&v, &"vm-b".to_string()));
    assert!(!name_in(&v, &"vm-c".to_string()));
    assert!(!name_in(&v, &"VM-A".to_string()));
}

#[test]
fn header_name_comparison_ignores_ascii_case_only() {
    assert!(eq_ignore_ascii_case("Retry-After", "retry-after"));
    assert!(eq_ignore_ascii_case("LOCATION", "location"));
    assert!(eq_ignore_ascii_case("", ""));
    assert!(!eq_ignore_ascii_case("location", "locations"));
    assert!(!eq_ignore_ascii_case("location", "loc4tion"));
}
