use dots::{Dot, Dotfile, EntryError, State};

fn entry(name: &str) -> Dot {
    Dot {
        from: Some("/home/user".to_string()),
        to: Some("/cfg".to_string()),
        file: Some(name.to_string()),
        state: State::Unlinked,
    }
}

#[test]
fn file_name_of_entry() {
    assert_eq!(entry(".vimrc").file_name(), ".vimrc");
}

#[test]
fn file_name_of_placeholder_is_empty() {
    let d = Dot { from: None, to: None, file: None, state: State::Error };
    assert_eq!(d.file_name(), "");
}

#[test]
fn from_and_to_join_the_paths() {
    let d = entry(".vimrc");
    assert_eq!(d.from(), Ok("/home/user/.vimrc".to_string()));
    assert_eq!(d.to(), Ok("/cfg/.vimrc".to_string()));
}

#[test]
fn missing_file_is_reported_first() {
    let d = Dot { from: None, to: None, file: None, state: State::Error };
    assert_eq!(d.from(), Err(EntryError::MissingFile));
    assert_eq!(d.to(), Err(EntryError::MissingFile));
}

#[test]
fn missing_directory_is_reported() {
    let d = Dot {
        from: None,
        to: None,
        file: Some(".vimrc".to_string()),
        state: State::Unlinked,
    };
    assert_eq!(d.from(), Err(EntryError::MissingPath));
    assert_eq!(d.to(), Err(EntryError::MissingPath));
}

#[test]
fn clone_copies_every_field() {
    let d = entry(".vimrc");
    let c = d.clone();
    assert_eq!(c, d);
}

#[test]
fn dotfile_new_joins_resolved_directories() {
    let d = Dotfile::new(
        Some("/home/user".to_string()),
        Some("/cfg".to_string()),
        &".samplerc".to_string(),
    );
    assert_eq!(d.from, Some("/home/user/.samplerc".to_string()));
    assert_eq!(d.to, Some("/cfg/.samplerc".to_string()));
    assert_eq!(d.state, State::Unlinked);
}

#[test]
fn dotfile_new_keeps_unresolved_sides_empty() {
    let d = Dotfile::new(None, None, &".samplerc".to_string());
    assert_eq!(d.from, None);
    assert_eq!(d.to, None);
    assert_eq!(d.state, State::Unlinked);

    let d = Dotfile::new(None, Some("/cfg".to_string()), &".samplerc".to_string());
    assert_eq!(d.from, None);
    assert_eq!(d.to, Some("/cfg/.samplerc".to_string()));
    assert_eq!(d.state, State::Unlinked);
}
