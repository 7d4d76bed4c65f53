use json_columns::{Node, PanelSide, ProgramState};

fn text(s: &str) -> Node {
    Node::Str(s.to_string())
}

#[test]
fn panel_geometry_is_thirds() {
    let root = Node::Array(vec![Node::Array(vec![Node::Null])]);
    for cols in [0u16, 1, 2, 3, 7, 90, 100, 65535] {
        let mut s = ProgramState::new(&root, (cols, 20));
        s.push_path();
        let mut total: u32 = 0;
        for side in [PanelSide::Left, PanelSide::Middle, PanelSide::Right] {
            let p = s.panel_state(side).unwrap();
            assert_eq!(p.width(), cols / 3);
            assert!(p.column() as u32 + p.width() as u32 <= cols as u32);
            total += p.width() as u32;
        }
        assert!(total <= cols as u32);
    }
}

#[test]
fn panel_columns() {
    let root = Node::Array(vec![Node::Array(vec![Node::Null])]);
    let mut s = ProgramState::new(&root, (100, 20));
    s.push_path();
    assert_eq!(s.panel_state(PanelSide::Left).unwrap().column(), 0);
    assert_eq!(s.panel_state(PanelSide::Middle).unwrap().column(), 33);
    assert_eq!(s.panel_state(PanelSide::Right).unwrap().column(), 66);
}

#[test]
fn left_panel_only_below_root() {
    let root = Node::Array(vec![Node::Null, Node::Array(vec![Node::Null])]);
    let mut s = ProgramState::new(&root, (90, 20));
    assert!(s.panel_state(PanelSide::Left).is_none());
    s.inc_index();
    s.push_path();
    let left = s.panel_state(PanelSide::Left).unwrap();
    assert_eq!(left.value(), &root);
    assert_eq!(left.index(), 1);
    assert_eq!(left.text(), "1");
    assert!(left.highlighted());
}

#[test]
fn right_panel_previews_selected_child() {
    let child = Node::Object(vec![("x".to_string(), Node::Null), ("y".to_string(), Node::Null)]);
    let root = Node::Object(vec![("k".to_string(), child)]);
    let s = ProgramState::new(&root, (30, 20));
    let right = s.panel_state(PanelSide::Right).unwrap();
    assert!(!right.highlighted());
    assert_eq!(right.index(), 0);
    assert_eq!(right.text(), "x");
    assert_eq!(right.lines(), &vec![" x        ".to_string(), " y        ".to_string()]);
}

#[test]
fn right_panel_absent_without_children() {
    let scalar = text("hello");
    let s = ProgramState::new(&scalar, (30, 20));
    assert!(s.panel_state(PanelSide::Right).is_none());
    let empty = Node::Array(Vec::new());
    let t = ProgramState::new(&empty, (30, 20));
    assert!(t.panel_state(PanelSide::Right).is_none());
}

#[test]
fn scalar_middle_panel_shows_its_value() {
    let scalar = text("hello");
    let s = ProgramState::new(&scalar, (30, 20));
    let middle = s.panel_state(PanelSide::Middle).unwrap();
    assert_eq!(middle.text(), "hello");
    assert!(middle.highlighted());
    assert_eq!(middle.index(), 0);
    assert_eq!(middle.lines(), &vec![" hello    ".to_string()]);
}

#[test]
fn empty_container_middle_panel_has_no_rows() {
    let empty = Node::Object(Vec::new());
    let s = ProgramState::new(&empty, (30, 20));
    let middle = s.panel_state(PanelSide::Middle).unwrap();
    assert_eq!(middle.text(), "");
    assert!(!middle.highlighted());
    assert!(middle.lines().is_empty());
}

#[test]
fn middle_panel_lines_are_labels() {
    let root = Node::Array(vec![Node::Null, Node::Bool(false), Node::Number("2.5".to_string())]);
    let mut s = ProgramState::new(&root, (15, 20));
    s.inc_index();
    let middle = s.panel_state(PanelSide::Middle).unwrap();
    assert_eq!(middle.index(), 1);
    assert_eq!(middle.text(), "1");
    assert_eq!(
        middle.lines(),
        &vec![" 0   ".to_string(), " 1   ".to_string(), " 2   ".to_string()]
    );
    let right = s.panel_state(PanelSide::Right).unwrap();
    assert_eq!(right.text(), "false");
}

#[test]
fn row_index_is_held_at_u16_max() {
    let mut items = Vec::new();
    for _ in 0..66000 {
        items.push(Node::Null);
    }
    let root = Node::Array(items);
    let mut s = ProgramState::new(&root, (30, 20));
    for _ in 0..65999 {
        s.inc_index();
    }
    assert_eq!(s.index(), 65999);
    let middle = s.panel_state(PanelSide::Middle).unwrap();
    assert_eq!(middle.index(), 65535);
    assert_eq!(middle.text(), "65999");
}
