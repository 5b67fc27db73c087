use vstd::prelude::*;
use vstd::utf8::encode_utf8;
use crate::volume::VolumeRecord;

verus! {

/// The direction in which a column is sorted.
#[derive(Debug, Clone, Copy, PartialEq, Eq, Structural)]
pub enum SortOrder {
    Ascending,
    Descending,
}

/// The columns of the volume table that can be sorted on.
#[derive(Debug, Clone, Copy, PartialEq, Eq, Structural)]
pub enum VolumeSortField {
    Name,
    Driver,
    Mountpoint,
    Created,
}

/// Which column the table is sorted on, and in which direction.
#[derive(Debug, Clone, Copy, PartialEq, Eq, Structural)]
pub struct SortState {
    pub field: VolumeSortField,
    pub order: SortOrder,
}

pub open spec fn flipped(o: SortOrder) -> SortOrder {
    match o {
        SortOrder::Ascending => SortOrder::Descending,
        SortOrder::Descending => SortOrder::Ascending,
    }
}

/// The state after selecting `field`: the same field flips the order, another starts ascending.
pub open spec fn toggled(s: SortState, field: VolumeSortField) -> SortState {
    if s.field == field {
        SortState { field, order: flipped(s.order) }
    } else {
        SortState { field, order: SortOrder::Ascending }
    }
}

impl SortState {
    /// Sorted by name, ascending.
    pub fn new() -> (r: Self)
        ensures
            r == (SortState { field: VolumeSortField::Name, order: SortOrder::Ascending }),
    {
        SortState { field: VolumeSortField::Name, order: SortOrder::Ascending }
    }

    pub fn toggle_or_set(&mut self, field: VolumeSortField)
        ensures
            *final(self) == toggled(*old(self), field),
    {
        if self.field == field {
            self.order = match self.order {
                SortOrder::Ascending => SortOrder::Descending,
                SortOrder::Descending => SortOrder::Ascending,
            };
        } else {
            self.field = field;
            self.order = SortOrder::Ascending;
        }
    }

    /// Whether the table is sorted on `field`.
    pub fn is_field_sorted(&self, field: VolumeSortField) -> (r: bool)
        ensures
            r == (self.field == field),
    {
        self.field == field
    }

    /// The order of `field`'s column, if the table is sorted on it.
    pub fn field_sort_order(&self, field: VolumeSortField) -> (r: Option<SortOrder>)
        ensures
            r == (if self.field == field { Some(self.order) } else { None::<SortOrder> }),
    {
        if self.field == field {
            Some(self.order)
        } else {
            None
        }
    }
}

/// Selecting a field twice gives back the state that selecting it once gave, so that the
/// order of a field that is already selected returns after two selections.
pub proof fn lemma_toggle_twice(s: SortState, field: VolumeSortField)
    ensures
        s.field == field ==> toggled(toggled(s, field), field) == s,
        toggled(toggled(toggled(s, field), field), field) == toggled(s, field),
{
}

/// Selecting one field and then another leaves the second one selected, ascending.
pub proof fn lemma_toggle_other_field(s: SortState, first: VolumeSortField, second: VolumeSortField)
    requires
        first != second,
    ensures
        toggled(toggled(s, first), second) == (SortState { field: second, order: SortOrder::Ascending }),
{
}

/// The bytes a record is compared by under `field`; an unknown creation time counts as empty.
pub open spec fn sort_key(v: VolumeRecord, field: VolumeSortField) -> Seq<u8> {
    match field {
        VolumeSortField::Name => encode_utf8(v.name@),
        VolumeSortField::Driver => encode_utf8(v.driver@),
        VolumeSortField::Mountpoint => encode_utf8(v.mountpoint@),
        VolumeSortField::Created => match v.created_at {
            Some(c) => encode_utf8(c@),
            None => encode_utf8(Seq::empty()),
        },
    }
}

/// Lexicographic comparison of `a` and `b` from position `i` on: -1, 0 or 1.
pub open spec fn lex_cmp_from(a: Seq<u8>, b: Seq<u8>, i: int) -> int
    decreases a.len() - i,
{
    if i < 0 || i >= a.len() {
        if i >= 0 && i < b.len() { -1 } else { 0 }
    } else if i >= b.len() {
        1
    } else if a[i] < b[i] {
        -1
    } else if a[i] > b[i] {
        1
    } else {
        lex_cmp_from(a, b, i + 1)
    }
}

/// Lexicographic byte comparison, the order of `str`'s `cmp`: -1, 0 or 1.
pub open spec fn lex_cmp(a: Seq<u8>, b: Seq<u8>) -> int {
    lex_cmp_from(a, b, 0)
}

/// How record `a` compares with `b` in the table's order under `s`.
pub open spec fn record_cmp(a: VolumeRecord, b: VolumeRecord, s: SortState) -> int {
    let c = lex_cmp(sort_key(a, s.field), sort_key(b, s.field));
    match s.order {
        SortOrder::Ascending => c,
        SortOrder::Descending => -c,
    }
}

pub open spec fn is_sorted_by(v: Seq<VolumeRecord>, s: SortState) -> bool {
    forall|i: int, j: int| 0 <= i < j < v.len() ==> record_cmp(#[trigger] v[i], #[trigger] v[j], s) <= 0
}

/// The records of `v` whose key under `field` is `k`, in their order in `v`.
pub open spec fn key_class(v: Seq<VolumeRecord>, field: VolumeSortField, k: Seq<u8>) -> Seq<VolumeRecord> {
    v.filter(has_key(field, k))
}

pub open spec fn has_key(field: VolumeSortField, k: Seq<u8>) -> spec_fn(VolumeRecord) -> bool {
    |r: VolumeRecord| sort_key(r, field) == k
}

/// `after` is `before` sorted under `s`, with records of equal keys in their former order.
pub open spec fn is_stable_sort_of(after: Seq<VolumeRecord>, before: Seq<VolumeRecord>, s: SortState) -> bool {
    &&& is_sorted_by(after, s)
    &&& forall|k: Seq<u8>| #[trigger] key_class(after, s.field, k) == key_class(before, s.field, k)
}

proof fn lemma_lex_cmp_from_range(a: Seq<u8>, b: Seq<u8>, i: int)
    ensures
        -1 <= lex_cmp_from(a, b, i) <= 1,
        lex_cmp_from(a, b, i) == -lex_cmp_from(b, a, i),
    decreases a.len() - i,
{
    if 0 <= i < a.len() && i < b.len() && a[i] == b[i] {
        lemma_lex_cmp_from_range(a, b, i + 1);
    }
}

proof fn lemma_lex_cmp_from_zero(a: Seq<u8>, b: Seq<u8>, i: int)
    requires
        0 <= i <= a.len(),
        i <= b.len(),
        a.subrange(0, i) == b.subrange(0, i),
    ensures
        lex_cmp_from(a, b, i) == 0 <==> a == b,
    decreases a.len() - i,
{
    if i < a.len() && i < b.len() && a[i] == b[i] {
        assert(a.subrange(0, i + 1) =~= a.subrange(0, i).push(a[i]));
        assert(b.subrange(0, i + 1) =~= b.subrange(0, i).push(b[i]));
        lemma_lex_cmp_from_zero(a, b, i + 1);
    } else if i == a.len() && i == b.len() {
        assert(a =~= a.subrange(0, i));
        assert(b =~= b.subrange(0, i));
    } else if i < a.len() && i < b.len() {
        assert(a[i] != b[i]);
    } else if i < a.len() {
        assert(a.len() != b.len());
    } else {
        assert(a.len() != b.len());
    }
}

proof fn lemma_lex_cmp_from_trans(a: Seq<u8>, b: Seq<u8>, c: Seq<u8>, i: int)
    requires
        0 <= i,
        lex_cmp_from(a, b, i) <= 0,
        lex_cmp_from(b, c, i) <= 0,
    ensures
        lex_cmp_from(a, c, i) <= 0,
    decreases a.len() - i,
{
    if i < a.len() && i < b.len() && i < c.len() && a[i] == b[i] && b[i] == c[i] {
        lemma_lex_cmp_from_trans(a, b, c, i + 1);
    }
}

/// Facts on the lexicographic order: a total order whose ties are equal keys.
pub proof fn lemma_lex_cmp(a: Seq<u8>, b: Seq<u8>, c: Seq<u8>)
    ensures
        -1 <= lex_cmp(a, b) <= 1,
        lex_cmp(a, b) == -lex_cmp(b, a),
        lex_cmp(a, b) == 0 <==> a == b,
        lex_cmp(a, b) <= 0 && lex_cmp(b, c) <= 0 ==> lex_cmp(a, c) <= 0,
{
    lemma_lex_cmp_from_range(a, b, 0);
    assert(a.subrange(0, 0) =~= b.subrange(0, 0));
    lemma_lex_cmp_from_zero(a, b, 0);
    if lex_cmp(a, b) <= 0 && lex_cmp(b, c) <= 0 {
        lemma_lex_cmp_from_trans(a, b, c, 0);
    }
}

/// Facts on the record order under a sort state.
pub proof fn lemma_record_cmp(a: VolumeRecord, b: VolumeRecord, c: VolumeRecord, s: SortState)
    ensures
        record_cmp(a, b, s) == -record_cmp(b, a, s),
        record_cmp(a, b, s) == 0 <==> sort_key(a, s.field) == sort_key(b, s.field),
        record_cmp(a, b, s) <= 0 && record_cmp(b, c, s) <= 0 ==> record_cmp(a, c, s) <= 0,
{
    let (ka, kb, kc) = (sort_key(a, s.field), sort_key(b, s.field), sort_key(c, s.field));
    lemma_lex_cmp(ka, kb, kc);
    lemma_lex_cmp(kc, kb, ka);
    lemma_lex_cmp(ka, kc, kb);
}

/// Compares two byte strings lexicographically.
fn compare_bytes(a: &[u8], b: &[u8]) -> (r: i8)
    ensures
        r as int == lex_cmp(a@, b@),
{
    let mut i: usize = 0;
    while i < a.len() && i < b.len()
        invariant
            i <= a@.len(),
            i <= b@.len(),
            lex_cmp(a@, b@) == lex_cmp_from(a@, b@, i as int),
        decreases a@.len() - i,
    {
        if a[i] < b[i] {
            return -1;
        } else if a[i] > b[i] {
            return 1;
        }
        i = i + 1;
    }
    if i < b.len() {
        -1
    } else if i < a.len() {
        1
    } else {
        0
    }
}

fn key_bytes(v: &VolumeRecord, field: VolumeSortField) -> (r: &[u8])
    ensures
        r@ == sort_key(*v, field),
{
    match field {
        VolumeSortField::Name => v.name.as_str().as_bytes(),
        VolumeSortField::Driver => v.driver.as_str().as_bytes(),
        VolumeSortField::Mountpoint => v.mountpoint.as_str().as_bytes(),
        VolumeSortField::Created => match &v.created_at {
            Some(c) => c.as_str().as_bytes(),
            None => {
                proof {
                    reveal_strlit("");
                }
                "".as_bytes()
            },
        },
    }
}

/// Compares two records in the table's order under `s`.
pub fn compare_records(a: &VolumeRecord, b: &VolumeRecord, s: &SortState) -> (r: i8)
    ensures
        r as int == record_cmp(*a, *b, *s),
{
    let c = compare_bytes(key_bytes(a, s.field), key_bytes(b, s.field));
    proof {
        lemma_lex_cmp(sort_key(*a, s.field), sort_key(*b, s.field), sort_key(*b, s.field));
    }
    match s.order {
        SortOrder::Ascending => c,
        SortOrder::Descending => -c,
    }
}

proof fn lemma_insert_keeps_classes(
    sorted: Seq<VolumeRecord>,
    taken: Seq<VolumeRecord>,
    x: VolumeRecord,
    j: int,
    s: SortState,
)
    requires
        0 <= j <= sorted.len(),
        forall|k: Seq<u8>| #[trigger] key_class(sorted, s.field, k) == key_class(taken, s.field, k),
        forall|t: int| j <= t < sorted.len() ==> record_cmp(#[trigger] sorted[t], x, s) > 0,
    ensures
        forall|k: Seq<u8>| #[trigger] key_class(sorted.insert(j, x), s.field, k) == key_class(taken.push(x), s.field, k),
{
    let a = sorted.subrange(0, j);
    let b = sorted.subrange(j, sorted.len() as int);
    assert(sorted.insert(j, x) =~= a.push(x) + b);
    assert(sorted =~= a + b);
    assert forall|k: Seq<u8>| #[trigger] key_class(sorted.insert(j, x), s.field, k) == key_class(taken.push(x), s.field, k) by {
        let p = has_key(s.field, k);
        Seq::filter_distributes_over_add(a.push(x), b, p);
        Seq::filter_distributes_over_add(a, b, p);
        a.lemma_filter_push(x, p);
        taken.lemma_filter_push(x, p);
        assert(key_class(sorted, s.field, k) == key_class(taken, s.field, k));
        if p(x) {
            if b.filter(p).len() > 0 {
                let y = b.filter(p)[0];
                b.lemma_filter_pred(p, 0);
                assert(b.filter(p).contains(y));
                b.lemma_filter_contains_rev(p, y);
                let t = choose|t: int| 0 <= t < b.len() && b[t] == y;
                assert(sorted[j + t] == y);
                lemma_record_cmp(y, x, x, s);
                assert(false);
            }
            assert(b.filter(p) =~= Seq::<VolumeRecord>::empty());
            assert(key_class(sorted.insert(j, x), s.field, k) =~= key_class(taken.push(x), s.field, k));
        } else {
            assert(key_class(sorted.insert(j, x), s.field, k) =~= key_class(taken.push(x), s.field, k));
        }
    }
}

/// Sorts `volumes` stably in the table's order under `s`.
pub fn sort_volumes(volumes: &mut Vec<VolumeRecord>, s: &SortState)
    ensures
        is_stable_sort_of(final(volumes)@, old(volumes)@, *s),
        final(volumes)@.len() == old(volumes)@.len(),
{
    let mut rest: Vec<VolumeRecord> = Vec::new();
    std::mem::swap(volumes, &mut rest);
    let ghost input = rest@;
    let ghost mut n: int = 0;
    let mut sorted: Vec<VolumeRecord> = Vec::new();
    assert forall|k: Seq<u8>| #[trigger] key_class(sorted@, s.field, k) == key_class(input.subrange(0, 0), s.field, k) by {
        reveal(Seq::filter);
        assert(sorted@.filter(has_key(s.field, k)) =~= input.subrange(0, 0).filter(has_key(s.field, k)));
    }
    while rest.len() > 0
        invariant
            0 <= n <= input.len(),
            rest@ == input.subrange(n, input.len() as int),
            sorted@.len() == n,
            is_sorted_by(sorted@, *s),
            forall|k: Seq<u8>| #[trigger] key_class(sorted@, s.field, k) == key_class(input.subrange(0, n), s.field, k),
        decreases rest@.len(),
    {
        let x = rest.remove(0);
        let mut j: usize = sorted.len();
        let mut placed = false;
        while !placed && j > 0
            invariant
                j <= sorted@.len(),
                forall|t: int| j <= t < sorted@.len() ==> record_cmp(#[trigger] sorted@[t], x, *s) > 0,
                placed ==> j > 0 && record_cmp(sorted@[j - 1], x, *s) <= 0,
            decreases j + if placed { 0int } else { 1int },
        {
            if compare_records(&sorted[j - 1], &x, s) > 0 {
                j = j - 1;
            } else {
                placed = true;
            }
        }
        proof {
            let old_sorted = sorted@;
            let new_sorted = old_sorted.insert(j as int, x);
            assert(input.subrange(0, n + 1) =~= input.subrange(0, n).push(x));
            lemma_insert_keeps_classes(old_sorted, input.subrange(0, n), x, j as int, *s);
            assert forall|p: int, q: int| 0 <= p < q < new_sorted.len() implies record_cmp(
                #[trigger] new_sorted[p],
                #[trigger] new_sorted[q],
                *s,
            ) <= 0 by {
                if q == j {
                    if p < j - 1 {
                        lemma_record_cmp(old_sorted[p], old_sorted[j - 1], x, *s);
                    }
                } else if p == j {
                    lemma_record_cmp(x, old_sorted[q - 1], x, *s);
                } else if p > j {
                    assert(record_cmp(old_sorted[p - 1], old_sorted[q - 1], *s) <= 0);
                } else if q > j {
                    assert(record_cmp(old_sorted[p], old_sorted[q - 1], *s) <= 0);
                } else {
                    assert(record_cmp(old_sorted[p], old_sorted[q], *s) <= 0);
                }
            }
            n = n + 1;
        }
        sorted.insert(j, x);
    }
    proof {
        assert(input.subrange(0, n) =~= input);
    }
    *volumes = sorted;
}

proof fn lemma_member_of_class(v: Seq<VolumeRecord>, field: VolumeSortField, t: int)
    requires
        0 <= t < v.len(),
    ensures
        key_class(v, field, sort_key(v[t], field)).contains(v[t]),
{
    v.lemma_filter_contains(has_key(field, sort_key(v[t], field)), t);
}

proof fn lemma_class_member(v: Seq<VolumeRecord>, field: VolumeSortField, k: Seq<u8>, y: VolumeRecord)
    requires
        key_class(v, field, k).contains(y),
    ensures
        v.contains(y),
        sort_key(y, field) == k,
{
    let p = has_key(field, k);
    v.lemma_filter_contains_rev(p, y);
    let i = choose|i: int| 0 <= i < v.filter(p).len() && v.filter(p)[i] == y;
    v.lemma_filter_pred(p, i);
}

proof fn lemma_empty_has_no_class(x: Seq<VolumeRecord>, y: Seq<VolumeRecord>, field: VolumeSortField)
    requires
        x.len() == 0,
        forall|k: Seq<u8>| #[trigger] key_class(x, field, k) == key_class(y, field, k),
    ensures
        y.len() == 0,
{
    if y.len() > 0 {
        let k = sort_key(y[0], field);
        lemma_member_of_class(y, field, 0);
        assert(key_class(x, field, k) == key_class(y, field, k));
        x.lemma_filter_len(has_key(field, k));
        assert(key_class(x, field, k).len() == 0);
    }
}

/// Two lists sorted under the same state, whose records of each key come in the same order,
/// are the same list: a stable sort has exactly one result.
pub proof fn lemma_stable_sort_unique(x: Seq<VolumeRecord>, y: Seq<VolumeRecord>, s: SortState)
    requires
        is_sorted_by(x, s),
        is_sorted_by(y, s),
        forall|k: Seq<u8>| #[trigger] key_class(x, s.field, k) == key_class(y, s.field, k),
    ensures
        x == y,
    decreases x.len(),
{
    let f = s.field;
    if x.len() == 0 {
        lemma_empty_has_no_class(x, y, f);
        assert(x =~= y);
    } else if y.len() == 0 {
        lemma_empty_has_no_class(y, x, f);
    } else {
        let (x0, y0) = (x[0], y[0]);
        let k = sort_key(x0, f);
        if sort_key(y0, f) != k {
            lemma_member_of_class(y, f, 0);
            assert(key_class(x, f, sort_key(y0, f)) == key_class(y, f, sort_key(y0, f)));
            lemma_class_member(x, f, sort_key(y0, f), y0);
            let t = choose|t: int| 0 <= t < x.len() && x[t] == y0;
            assert(record_cmp(x[0], x[t], s) <= 0);
            lemma_member_of_class(x, f, 0);
            assert(key_class(x, f, k) == key_class(y, f, k));
            lemma_class_member(y, f, k, x0);
            let u = choose|u: int| 0 <= u < y.len() && y[u] == x0;
            assert(record_cmp(y[0], y[u], s) <= 0);
            lemma_record_cmp(x0, y0, x0, s);
        }
        let xt = x.drop_first();
        let yt = y.drop_first();
        assert(x =~= seq![x0] + xt);
        assert(y =~= seq![y0] + yt);
        assert forall|k2: Seq<u8>| #[trigger] key_class(xt, f, k2) == key_class(yt, f, k2) by {
            let p = has_key(f, k2);
            xt.lemma_filter_prepend(x0, p);
            yt.lemma_filter_prepend(y0, p);
            assert(key_class(x, f, k2) == key_class(y, f, k2));
            if k2 == k {
                assert(key_class(xt, f, k2) =~= key_class(x, f, k2).drop_first());
                assert(key_class(yt, f, k2) =~= key_class(y, f, k2).drop_first());
            } else {
                assert(key_class(xt, f, k2) =~= key_class(x, f, k2));
                assert(key_class(yt, f, k2) =~= key_class(y, f, k2));
            }
        }
        let p = has_key(f, k);
        xt.lemma_filter_prepend(x0, p);
        yt.lemma_filter_prepend(y0, p);
        assert(key_class(x, f, k) == key_class(y, f, k));
        assert(key_class(x, f, k)[0] == x0);
        assert(key_class(y, f, k)[0] == y0);
        assert forall|i: int, j: int| 0 <= i < j < xt.len() implies record_cmp(#[trigger] xt[i], #[trigger] xt[j], s) <= 0 by {
            assert(xt[i] == x[i + 1] && xt[j] == x[j + 1]);
        }
        assert forall|i: int, j: int| 0 <= i < j < yt.len() implies record_cmp(#[trigger] yt[i], #[trigger] yt[j], s) <= 0 by {
            assert(yt[i] == y[i + 1] && yt[j] == y[j + 1]);
        }
        lemma_stable_sort_unique(xt, yt, s);
    }
}

/// Selecting the sorted field twice gives the list back in the order it had: sorting a
/// sorted list again under the flipped state, then under the state after a second toggle,
/// returns the first result.
pub proof fn lemma_toggle_twice_restores_order(
    list: Seq<VolumeRecord>,
    once: Seq<VolumeRecord>,
    twice: Seq<VolumeRecord>,
    thrice: Seq<VolumeRecord>,
    s: SortState,
)
    requires
        is_stable_sort_of(once, list, s),
        is_stable_sort_of(twice, once, toggled(s, s.field)),
        is_stable_sort_of(thrice, twice, toggled(toggled(s, s.field), s.field)),
    ensures
        toggled(toggled(s, s.field), s.field) == s,
        thrice == once,
{
    assert forall|k: Seq<u8>| #[trigger] key_class(thrice, s.field, k) == key_class(once, s.field, k) by {
        assert(key_class(thrice, s.field, k) == key_class(twice, s.field, k));
        assert(key_class(twice, s.field, k) == key_class(once, s.field, k));
    }
    lemma_stable_sort_unique(thrice, once, s);
}

} // verus!
