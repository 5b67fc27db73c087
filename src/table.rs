use vstd::prelude::*;
use crate::sorting::{SortOrder, SortState, VolumeSortField};

verus! {

/// A column heading: its label, whether the table is sorted on it, and the order shown.
#[derive(Debug)]
pub struct ColumnHeader {
    pub label: String,
    pub sorted: bool,
    pub order: SortOrder,
}

/// The table's columns, left to right.
pub open spec fn column_field(i: int) -> VolumeSortField {
    if i == 0 {
        VolumeSortField::Name
    } else if i == 1 {
        VolumeSortField::Driver
    } else if i == 2 {
        VolumeSortField::Mountpoint
    } else {
        VolumeSortField::Created
    }
}

pub open spec fn column_label(field: VolumeSortField) -> Seq<char> {
    match field {
        VolumeSortField::Name => "Name"@,
        VolumeSortField::Driver => "Driver"@,
        VolumeSortField::Mountpoint => "Mountpoint"@,
        VolumeSortField::Created => "Created"@,
    }
}

/// The heading of `field`'s column under `s`; a column that is not sorted on shows ascending.
pub open spec fn is_header_of(h: ColumnHeader, field: VolumeSortField, s: SortState) -> bool {
    &&& h.label@ == column_label(field)
    &&& h.sorted == (s.field == field)
    &&& h.order == if s.field == field { s.order } else { SortOrder::Ascending }
}

fn header_for(field: VolumeSortField, label: &str, s: &SortState) -> (r: ColumnHeader)
    requires
        label@ == column_label(field),
    ensures
        is_header_of(r, field, *s),
{
    let order = match s.field_sort_order(field) {
        Some(o) => o,
        None => SortOrder::Ascending,
    };
    ColumnHeader { label: String::from_str(label), sorted: s.is_field_sorted(field), order }
}

/// The headings of the volume table under `s`.
pub fn header_columns(s: &SortState) -> (r: Vec<ColumnHeader>)
    ensures
        r@.len() == 4,
        forall|i: int| 0 <= i < 4 ==> is_header_of(#[trigger] r@[i], column_field(i), *s),
{
    let mut headers: Vec<ColumnHeader> = Vec::new();
    headers.push(header_for(VolumeSortField::Name, "Name", s));
    headers.push(header_for(VolumeSortField::Driver, "Driver", s));
    headers.push(header_for(VolumeSortField::Mountpoint, "Mountpoint", s));
    headers.push(header_for(VolumeSortField::Created, "Created", s));
    headers
}

} // verus!
