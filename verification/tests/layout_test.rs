use tv::layout::Layout;

#[test]
fn layout_subtracts_header_status_and_scrollbar() {
    let layout = Layout::compute(80, 24, false, 0);
    assert_eq!(layout.table_width, 79);
    assert_eq!(layout.table_height, 22);
    assert_eq!(layout.index_width, 0);
    assert_eq!(layout.index_height, 0);
}

#[test]
fn layout_with_index_column_loses_its_width_and_border() {
    let layout = Layout::compute(80, 24, true, 3);
    assert_eq!(layout.table_width, 75);
    assert_eq!(layout.table_height, 22);
    assert_eq!(layout.index_width, 3);
    assert_eq!(layout.index_height, 22);
}

#[test]
fn layout_of_a_tiny_terminal_is_empty() {
    let layout = Layout::compute(0, 0, true, 5);
    assert_eq!(layout.table_width, 0);
    assert_eq!(layout.table_height, 0);
    let layout = Layout::compute(3, 1, true, 5);
    assert_eq!(layout.table_width, 0);
    assert_eq!(layout.table_height, 0);
    let layout = Layout::compute(1, 2, false, 0);
    assert_eq!(layout.table_width, 0);
    assert_eq!(layout.table_height, 0);
}

#[test]
fn layout_changes_with_index_visibility() {
    let hidden = Layout::compute(40, 10, false, 4);
    let shown = Layout::compute(40, 10, true, 4);
    assert_eq!(hidden.table_width, 39);
    assert_eq!(shown.table_width, 34);
    assert_eq!(hidden.table_height, shown.table_height);
}
