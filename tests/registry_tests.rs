use tool_supervisor::registry::InstanceRegistry;

fn names(items: &[&str]) -> Vec<String> {
    items.iter().map(|s| s.to_string()).collect()
}

#[test]
fn distinct_tools_are_both_admitted() {
    let mut r = InstanceRegistry::new();
    assert!(r.try_admit("alpha"));
    assert!(r.try_admit("beta"));
    assert!(r.is_admitted("alpha"));
    assert!(r.is_admitted("beta"));
}

#[test]
fn second_admission_is_refused() {
    let mut r = InstanceRegistry::new();
    assert!(r.try_admit("alpha"));
    assert!(!r.try_admit("alpha"));
    assert!(!r.try_admit("alpha"));
    assert!(r.is_admitted("alpha"));
}

#[test]
fn release_allows_admission_again() {
    let mut r = InstanceRegistry::new();
    assert!(!r.release("alpha"));
    assert!(r.try_admit("alpha"));
    assert!(r.release("alpha"));
    assert!(!r.is_admitted("alpha"));
    assert!(r.try_admit("alpha"));
}

#[test]
fn release_keeps_other_tools() {
    let mut r = InstanceRegistry::new();
    r.try_admit("alpha");
    r.try_admit("beta");
    r.try_admit("gamma");
    assert!(r.release("beta"));
    assert!(r.is_admitted("alpha"));
    assert!(!r.is_admitted("beta"));
    assert!(r.is_admitted("gamma"));
}

#[test]
fn batch_admits_first_occurrence_only() {
    let mut r = InstanceRegistry::new();
    r.try_admit("beta");
    let granted = r.admit_batch(&names(&["alpha", "beta", "alpha", "gamma"]));
    assert_eq!(granted, vec![true, false, false, true]);
    assert!(r.is_admitted("gamma"));
}

#[test]
fn empty_batch_launches_nothing() {
    let mut r = InstanceRegistry::new();
    let granted = r.admit_batch(&names(&[]));
    assert!(granted.is_empty());
    assert!(!r.is_admitted(""));
}
