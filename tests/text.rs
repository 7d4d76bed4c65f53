use json_columns::{index_label, pad_string, Node};

#[test]
fn pad_string_fills_to_width() {
    assert_eq!(pad_string("ab", 6), " ab   ");
    assert_eq!(pad_string("", 4), "    ");
    assert_eq!(pad_string("abcd", 6), " abcd ");
}

#[test]
fn pad_string_cuts_to_width() {
    assert_eq!(pad_string("abcdef", 5), " abc ");
    assert_eq!(pad_string("héllo wörld", 7), " héllo ");
}

#[test]
fn pad_string_narrow_widths() {
    assert_eq!(pad_string("abc", 0), "");
    assert_eq!(pad_string("abc", 1), " ");
    assert_eq!(pad_string("abc", 2), "  ");
    assert_eq!(pad_string("abc", 3), " a ");
}

#[test]
fn index_labels_are_decimal() {
    assert_eq!(index_label(0), "0");
    assert_eq!(index_label(7), "7");
    assert_eq!(index_label(10), "10");
    assert_eq!(index_label(42), "42");
    assert_eq!(index_label(1905), "1905");
    assert_eq!(index_label(usize::MAX), usize::MAX.to_string());
}

#[test]
fn scalar_labels() {
    assert_eq!(Node::Null.label_at(0), "null");
    assert_eq!(Node::Bool(true).label_at(0), "true");
    assert_eq!(Node::Bool(false).label_at(0), "false");
    assert_eq!(Node::Number("-1.5e3".to_string()).label_at(0), "-1.5e3");
    assert_eq!(Node::Str("a b".to_string()).label_at(0), "a b");
}

#[test]
fn child_access() {
    let root = Node::Object(vec![
        ("first".to_string(), Node::Null),
        ("second".to_string(), Node::Bool(true)),
    ]);
    assert_eq!(root.child_count(), 2);
    assert_eq!(root.row_count(), 2);
    assert_eq!(root.label_at(1), "second");
    assert_eq!(root.child_at(1), Some(&Node::Bool(true)));
    assert_eq!(root.child_at(2), None);
    assert_eq!(Node::Null.child_count(), 0);
    assert_eq!(Node::Null.row_count(), 1);
    assert_eq!(Node::Null.child_at(0), None);
    let array = Node::Array(vec![Node::Null, Node::Null, Node::Null]);
    assert_eq!(array.label_at(2), "2");
    assert_eq!(array.padded_lines(5), vec![" 0   ", " 1   ", " 2   "]);
}
