use dots::{build_inventory, filter_by_state, Dot, IgnoreSet, Probe, RawEntry, State};

fn read(name: &str, probe: Probe) -> RawEntry {
    RawEntry::Read { file: name.to_string(), probe }
}

#[test]
fn scenario_bashrc_vimrc_ds_store() {
    let from_dir = "/home/user".to_string();
    let to_dir = "/cfg".to_string();
    let ignores = IgnoreSet::from_config(".DS_Store");
    let entries = vec![
        read(".bashrc", Probe::Symlink("/cfg/.bashrc".to_string())),
        read(".vimrc", Probe::Absent),
        read(".DS_Store", Probe::Absent),
    ];
    let dots = build_inventory(&from_dir, &to_dir, &ignores, entries);
    assert_eq!(dots.len(), 3);
    assert_eq!(dots[0].file, Some(".bashrc".to_string()));
    assert_eq!(dots[0].state, State::Linked);
    assert_eq!(dots[1].file, Some(".vimrc".to_string()));
    assert_eq!(dots[1].state, State::Unlinked);
    assert_eq!(dots[2].file, Some(".DS_Store".to_string()));
    assert_eq!(dots[2].state, State::Ignored);
    for d in &dots {
        assert_eq!(d.from, Some("/home/user".to_string()));
        assert_eq!(d.to, Some("/cfg".to_string()));
    }
}

#[test]
fn unreadable_entry_becomes_placeholder() {
    let from_dir = "/home/user".to_string();
    let to_dir = "/cfg".to_string();
    let ignores = IgnoreSet::from_config("");
    let entries = vec![
        read(".bashrc", Probe::Absent),
        RawEntry::Unreadable,
        read(".vimrc", Probe::Absent),
    ];
    let dots = build_inventory(&from_dir, &to_dir, &ignores, entries);
    assert_eq!(dots.len(), 3);
    let expected = Dot { from: None, to: None, file: None, state: State::Error };
    assert_eq!(dots[1], expected);
    assert_eq!(dots[0].state, State::Unlinked);
    assert_eq!(dots[2].state, State::Unlinked);
}

#[test]
fn divergent_symlink_in_inventory() {
    let dots = build_inventory(
        &"/home/user".to_string(),
        &"/cfg".to_string(),
        &IgnoreSet::from_config(""),
        vec![read("a", Probe::Symlink("/some/other/path".to_string()))],
    );
    assert_eq!(dots[0].state, State::LinkedElsewhere);
}

#[test]
fn filter_keeps_only_the_state_in_order() {
    let mk = |name: &str, state: State| Dot {
        from: Some("/h".to_string()),
        to: Some("/c".to_string()),
        file: Some(name.to_string()),
        state,
    };
    let all = vec![
        mk("a", State::Unlinked),
        mk("b", State::Linked),
        mk("c", State::Unlinked),
        mk("d", State::Ignored),
        mk("e", State::Error),
    ];
    let unlinked = filter_by_state(&all, State::Unlinked);
    assert_eq!(unlinked.len(), 2);
    assert_eq!(unlinked[0].file, Some("a".to_string()));
    assert_eq!(unlinked[1].file, Some("c".to_string()));
    let linked = filter_by_state(&all, State::Linked);
    assert_eq!(linked.len(), 1);
    assert_eq!(linked[0].file, Some("b".to_string()));
    let errors = filter_by_state(&all, State::Error);
    assert_eq!(errors.len(), 1);
}
