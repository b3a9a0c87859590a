use dots::{candidate_names, select_by_names, Dot, State};

fn mk(name: &str) -> Dot {
    Dot {
        from: Some("/h".to_string()),
        to: Some("/c".to_string()),
        file: Some(name.to_string()),
        state: State::Unlinked,
    }
}

#[test]
fn selects_chosen_names_in_order() {
    let all = vec![mk("a"), mk("b"), mk("c")];
    let chosen = vec!["c".to_string(), "a".to_string()];
    let picked = select_by_names(&all, &chosen);
    assert_eq!(picked.len(), 2);
    assert_eq!(picked[0].file, Some("a".to_string()));
    assert_eq!(picked[1].file, Some("c".to_string()));
}

#[test]
fn foreign_names_select_nothing() {
    let all = vec![mk("a"), mk("b")];
    let chosen = vec!["z".to_string(), "a ".to_string(), "A".to_string()];
    let picked = select_by_names(&all, &chosen);
    assert_eq!(picked.len(), 0);
}

#[test]
fn candidate_names_in_order() {
    let mut all = vec![mk("b"), mk("a")];
    all.push(Dot { from: None, to: None, file: None, state: State::Error });
    let names = candidate_names(&all);
    assert_eq!(names, vec!["b".to_string(), "a".to_string(), "".to_string()]);
}

#[test]
fn empty_choice_selects_nothing() {
    let all = vec![mk("a"), mk("b")];
    let picked = select_by_names(&all, &Vec::new());
    assert_eq!(picked.len(), 0);
}
