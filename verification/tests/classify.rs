use dots::{classify, IgnoreSet, Probe, State};

fn no_ignores() -> IgnoreSet {
    IgnoreSet::from_config("")
}

#[test]
fn correct_symlink_is_linked() {
    let s = classify(
        &".bashrc".to_string(),
        &"/cfg".to_string(),
        &no_ignores(),
        &Probe::Symlink("/cfg/.bashrc".to_string()),
    );
    assert_eq!(s, State::Linked);
}

#[test]
fn divergent_symlink_is_linked_elsewhere() {
    let s = classify(
        &".bashrc".to_string(),
        &"/cfg".to_string(),
        &no_ignores(),
        &Probe::Symlink("/some/other/path".to_string()),
    );
    assert_eq!(s, State::LinkedElsewhere);
}

#[test]
fn absent_path_is_unlinked() {
    let s = classify(
        &".vimrc".to_string(),
        &"/cfg".to_string(),
        &no_ignores(),
        &Probe::Absent,
    );
    assert_eq!(s, State::Unlinked);
}

#[test]
fn occupied_path_is_unlinked() {
    let s = classify(
        &".vimrc".to_string(),
        &"/cfg".to_string(),
        &no_ignores(),
        &Probe::Occupied,
    );
    assert_eq!(s, State::Unlinked);
}

#[test]
fn ignore_wins_over_any_link_state() {
    let ignores = IgnoreSet::from_config(".DS_Store");
    let name = ".DS_Store".to_string();
    let dir = "/cfg".to_string();
    let correct = Probe::Symlink("/cfg/.DS_Store".to_string());
    let divergent = Probe::Symlink("/elsewhere/.DS_Store".to_string());
    assert_eq!(classify(&name, &dir, &ignores, &correct), State::Ignored);
    assert_eq!(classify(&name, &dir, &ignores, &divergent), State::Ignored);
    assert_eq!(classify(&name, &dir, &ignores, &Probe::Absent), State::Ignored);
    assert_eq!(classify(&name, &dir, &ignores, &Probe::Occupied), State::Ignored);
}

#[test]
fn classification_is_idempotent() {
    let name = ".bashrc".to_string();
    let dir = "/cfg".to_string();
    let ignores = IgnoreSet::from_config(".DS_Store");
    let first = classify(&name, &dir, &ignores, &Probe::Symlink("/cfg/.bashrc".to_string()));
    let second = classify(&name, &dir, &ignores, &Probe::Symlink("/cfg/.bashrc".to_string()));
    assert_eq!(first, second);
    let first = classify(&name, &dir, &ignores, &Probe::Absent);
    let second = classify(&name, &dir, &ignores, &Probe::Absent);
    assert_eq!(first, second);
}

#[test]
fn comparison_is_exact_path_equality() {
    let s = classify(
        &".bashrc".to_string(),
        &"/cfg".to_string(),
        &no_ignores(),
        &Probe::Symlink("/cfg/.bashrc/".to_string()),
    );
    assert_eq!(s, State::LinkedElsewhere);
}
