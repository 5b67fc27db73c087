use volume_page::navigation::{
    clamp_selection, decrement_selection, first_selection, increment_selection, last_selection,
};
use volume_page::sorting::{compare_records, sort_volumes, SortOrder, SortState, VolumeSortField};
use volume_page::table::header_columns;
use volume_page::volume::{volume_rows, VolumeRecord};

fn rec(name: &str, created: Option<&str>) -> VolumeRecord {
    VolumeRecord::new(name.to_string(), "local".to_string(), "/m".to_string(), created.map(|c| c.to_string()))
}

#[test]
fn selection_arithmetic() {
    assert_eq!(increment_selection(None, 3), Some(0));
    assert_eq!(increment_selection(Some(1), 3), Some(2));
    assert_eq!(increment_selection(Some(2), 3), Some(2));
    assert_eq!(increment_selection(None, 0), None);
    assert_eq!(decrement_selection(Some(0), 3), Some(0));
    assert_eq!(decrement_selection(Some(2), 3), Some(1));
    assert_eq!(first_selection(Some(2), 3), Some(0));
    assert_eq!(last_selection(Some(0), 3), Some(2));
    assert_eq!(last_selection(None, 0), None);
    assert_eq!(clamp_selection(Some(5), 3), Some(2));
    assert_eq!(clamp_selection(Some(5), 0), None);
}

#[test]
fn toggling_sort_state() {
    let mut s = SortState::new();
    s.toggle_or_set(VolumeSortField::Name);
    assert_eq!(s, SortState { field: VolumeSortField::Name, order: SortOrder::Descending });
    s.toggle_or_set(VolumeSortField::Name);
    assert_eq!(s, SortState { field: VolumeSortField::Name, order: SortOrder::Ascending });
    s.toggle_or_set(VolumeSortField::Created);
    s.toggle_or_set(VolumeSortField::Created);
    s.toggle_or_set(VolumeSortField::Driver);
    assert_eq!(s, SortState { field: VolumeSortField::Driver, order: SortOrder::Ascending });
}

#[test]
fn record_comparison_values() {
    let asc = SortState { field: VolumeSortField::Name, order: SortOrder::Ascending };
    let desc = SortState { field: VolumeSortField::Name, order: SortOrder::Descending };
    assert_eq!(compare_records(&rec("ab", None), &rec("b", None), &asc), -1);
    assert_eq!(compare_records(&rec("ab", None), &rec("b", None), &desc), 1);
    assert_eq!(compare_records(&rec("ab", None), &rec("a", None), &asc), 1);
    assert_eq!(compare_records(&rec("ab", None), &rec("ab", None), &asc), 0);
    let created = SortState { field: VolumeSortField::Created, order: SortOrder::Ascending };
    assert_eq!(compare_records(&rec("x", None), &rec("y", Some("")), &created), 0);
    assert_eq!(compare_records(&rec("x", None), &rec("y", Some("1")), &created), -1);
    assert_eq!(compare_records(&rec("\u{e9}", None), &rec("z", None), &asc), 1);
    assert_eq!(compare_records(&rec("Z", None), &rec("a", None), &asc), -1);
}

#[test]
fn sorting_a_plain_list() {
    let mut v = vec![rec("b", None), rec("c", None), rec("a", None)];
    sort_volumes(&mut v, &SortState { field: VolumeSortField::Name, order: SortOrder::Descending });
    let n: Vec<&str> = v.iter().map(|r| r.name.as_str()).collect();
    assert_eq!(n, vec!["c", "b", "a"]);
}

#[test]
fn rows_show_empty_creation_time() {
    let rows = volume_rows(&vec![rec("a", None), rec("b", Some("2024"))]);
    assert_eq!(rows.len(), 2);
    assert_eq!(rows[0], vec!["a", "local", "/m", ""]);
    assert_eq!(rows[1], vec!["b", "local", "/m", "2024"]);
}

#[test]
fn headers_mark_sorted_column() {
    let h = header_columns(&SortState { field: VolumeSortField::Driver, order: SortOrder::Descending });
    let labels: Vec<&str> = h.iter().map(|c| c.label.as_str()).collect();
    assert_eq!(labels, vec!["Name", "Driver", "Mountpoint", "Created"]);
    assert!(!h[0].sorted);
    assert!(h[1].sorted);
    assert_eq!(h[1].order, SortOrder::Descending);
    assert_eq!(h[0].order, SortOrder::Ascending);
}

#[test]
fn duplicate_is_equal() {
    let r = rec("a", Some("t"));
    assert_eq!(r.duplicate(), r);
}
