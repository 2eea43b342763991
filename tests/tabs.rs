use code_editor::{Action, FileTab, Message, State, TabError};

fn texts(s: &State) -> Vec<String> {
    s.tabs().iter().map(|t| t.text().clone()).collect()
}

#[test]
fn create_and_close_scenario() {
    let mut s = State::new();
    assert_eq!(s.active_tab(), None);
    s.create_buffer("hello".to_string(), None);
    assert_eq!(s.active_tab(), Some(0));
    assert_eq!(texts(&s), vec!["hello".to_string()]);
    s.create_buffer("world".to_string(), None);
    assert_eq!(s.active_tab(), Some(1));
    assert_eq!(texts(&s), vec!["hello".to_string(), "world".to_string()]);
    assert_eq!(s.close_tab(0), Ok(()));
    assert_eq!(s.active_tab(), Some(0));
    assert_eq!(texts(&s), vec!["world".to_string()]);
    assert_eq!(s.close_tab(0), Ok(()));
    assert_eq!(s.active_tab(), None);
    assert!(s.tabs().is_empty());
}

#[test]
fn active_index_stays_valid_over_mixed_ops() {
    let mut s = State::new();
    for k in 0..5 {
        s.create_buffer(format!("t{}", k), None);
    }
    s.select_tab(2).unwrap();
    for idx in [4usize, 0, 1, 0, 0] {
        s.close_tab(idx).unwrap();
        match s.active_tab() {
            Some(i) => assert!(i < s.tabs().len()),
            None => assert!(s.tabs().is_empty()),
        }
    }
    assert_eq!(s.active_tab(), None);
    assert!(s.close_tab(0).is_err());
    assert_eq!(s.active_tab(), None);
}

#[test]
fn closing_only_tab_empties() {
    let mut s = State::new();
    s.create_buffer("a".to_string(), Some("/tmp/a.txt".to_string()));
    assert_eq!(s.update(Message::TabClosed(0)).is_ok(), true);
    assert_eq!(s.active_tab(), None);
    assert_eq!(s.tabs().len(), 0);
}

#[test]
fn close_before_last_active_moves_down() {
    let mut s = State::new();
    for t in ["a", "b", "c"] {
        s.create_buffer(t.to_string(), None);
    }
    assert_eq!(s.active_tab(), Some(2));
    s.close_tab(0).unwrap();
    assert_eq!(s.active_tab(), Some(1));
    assert_eq!(s.tabs()[1].text(), "c");
}

#[test]
fn close_active_clamps_to_slot() {
    let mut s = State::new();
    for t in ["a", "b", "c"] {
        s.create_buffer(t.to_string(), None);
    }
    s.close_tab(2).unwrap();
    assert_eq!(s.active_tab(), Some(1));
    s.select_tab(0).unwrap();
    s.close_tab(0).unwrap();
    assert_eq!(s.active_tab(), Some(0));
    assert_eq!(texts(&s), vec!["b".to_string()]);
}

#[test]
fn close_before_active_in_middle_keeps_slot() {
    let mut s = State::new();
    for t in ["a", "b", "c", "d"] {
        s.create_buffer(t.to_string(), None);
    }
    s.select_tab(2).unwrap();
    s.close_tab(0).unwrap();
    assert_eq!(s.active_tab(), Some(2));
    assert_eq!(s.tabs()[2].text(), "d");
}

#[test]
fn text_on_empty_opens_one_buffer() {
    let mut s = State::new();
    let r = s.update(Message::TextUpdate("typed".to_string())).unwrap();
    assert!(matches!(r, Action::Nothing));
    assert_eq!(s.active_tab(), Some(0));
    assert_eq!(texts(&s), vec!["typed".to_string()]);
    assert_eq!(s.tabs()[0].path(), &None);
}

#[test]
fn text_update_replaces_active_text_only() {
    let mut s = State::new();
    s.create_buffer("one".to_string(), Some("/p/one".to_string()));
    s.create_buffer("two".to_string(), None);
    s.select_tab(0).unwrap();
    s.set_active_text("uno".to_string());
    assert_eq!(texts(&s), vec!["uno".to_string(), "two".to_string()]);
    assert_eq!(s.tabs()[0].path(), &Some("/p/one".to_string()));
}

#[test]
fn select_changes_only_active() {
    let mut s = State::new();
    s.create_buffer("x".to_string(), Some("/x".to_string()));
    s.create_buffer("y".to_string(), None);
    assert_eq!(s.select_tab(0), Ok(()));
    assert_eq!(s.active_tab(), Some(0));
    assert_eq!(texts(&s), vec!["x".to_string(), "y".to_string()]);
    assert_eq!(s.tabs()[0].path(), &Some("/x".to_string()));
    assert_eq!(s.tabs()[1].path(), &None);
}

#[test]
fn select_out_of_range_is_refused() {
    let mut s = State::new();
    s.create_buffer("x".to_string(), None);
    assert_eq!(s.select_tab(1), Err(TabError::IndexOutOfRange { index: 1, len: 1 }));
    assert_eq!(s.active_tab(), Some(0));
    let r = s.update(Message::TabSelected(7));
    assert!(matches!(r, Err(TabError::IndexOutOfRange { index: 7, len: 1 })));
}

#[test]
fn close_out_of_range_is_refused() {
    let mut s = State::new();
    assert_eq!(s.close_tab(0), Err(TabError::IndexOutOfRange { index: 0, len: 0 }));
    s.create_buffer("x".to_string(), None);
    let r = s.update(Message::TabClosed(3));
    assert!(matches!(r, Err(TabError::IndexOutOfRange { index: 3, len: 1 })));
    assert_eq!(texts(&s), vec!["x".to_string()]);
}

#[test]
fn new_tab_text_is_its_position() {
    let mut s = State::new();
    for _ in 0..11 {
        s.update(Message::NewTab).unwrap();
    }
    s.update(Message::NewFile).unwrap();
    let t = texts(&s);
    assert_eq!(t[0], "0");
    assert_eq!(t[1], "1");
    assert_eq!(t[10], "10");
    assert_eq!(t[11], "11");
    assert_eq!(s.active_tab(), Some(11));
}

#[test]
fn open_file_asks_for_picker_and_fills_buffer() {
    let mut s = State::new();
    assert!(matches!(s.update(Message::OpenFile), Ok(Action::PickFile)));
    assert!(s.tabs().is_empty());
    s.file_picked("body".to_string(), "/f.txt".to_string());
    assert_eq!(s.active_tab(), Some(0));
    assert_eq!(s.tabs()[0].text(), "body");
    assert_eq!(s.tabs()[0].path(), &Some("/f.txt".to_string()));
    s.file_picked("other".to_string(), "/g.txt".to_string());
    assert_eq!(s.tabs().len(), 1);
    assert_eq!(s.tabs()[0].text(), "other");
    assert_eq!(s.tabs()[0].path(), &Some("/g.txt".to_string()));
}

#[test]
fn open_folder_asks_for_picker() {
    let mut s = State::new();
    assert!(matches!(s.update(Message::OpenFolder), Ok(Action::PickFolder)));
    assert!(s.tabs().is_empty());
}

#[test]
fn save_requests() {
    let mut s = State::new();
    assert!(matches!(s.update(Message::Save), Ok(Action::Nothing)));
    assert!(matches!(s.update(Message::SaveAs), Ok(Action::Nothing)));
    s.create_buffer("draft".to_string(), None);
    match s.update(Message::Save) {
        Ok(Action::SaveAs { text, path }) => {
            assert_eq!(text, "draft");
            assert_eq!(path, None);
        }
        _ => panic!("expected a save-as request"),
    }
    s.saved_as("/d.txt".to_string());
    assert_eq!(s.tabs()[0].path(), &Some("/d.txt".to_string()));
    match s.update(Message::Save) {
        Ok(Action::Save { text, path }) => {
            assert_eq!(text, "draft");
            assert_eq!(path, "/d.txt");
        }
        _ => panic!("expected a save request"),
    }
    match s.update(Message::SaveAs) {
        Ok(Action::SaveAs { text, path }) => {
            assert_eq!(text, "draft");
            assert_eq!(path, Some("/d.txt".to_string()));
        }
        _ => panic!("expected a save-as request"),
    }
}

#[test]
fn form_inputs_are_kept() {
    let mut s = State::new();
    s.update(Message::TabLabelInputChanged("label".to_string())).unwrap();
    s.update(Message::TabContentInputChanged("content".to_string())).unwrap();
    assert_eq!(s.new_tab_label(), "label");
    assert_eq!(s.new_tab_content(), "content");
    assert!(s.tabs().is_empty());
}

#[test]
fn title_and_file_tab() {
    let s = State::new();
    assert_eq!(s.title(), "code editor");
    let t = FileTab::new("abc".to_string(), Some("/abc".to_string()));
    assert_eq!(t.text(), "abc");
    assert_eq!(t.path(), &Some("/abc".to_string()));
}
