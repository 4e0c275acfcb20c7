//! One table of the storage engine: the rows of one record kind.
use core::marker::PhantomData;
use vstd::prelude::*;
use crate::codec::{check_fits, decode_values, lemma_decode_fits};
use crate::record::{layout_ok, Fields, Layout, Record};
use crate::schema::{
    all_fit, decode, doc_view, fits, schema_view, schema_wf, values_view, FieldSpecView,
    FieldType, PresenceView, SchemaError, SchemaErrorKind,
};
use crate::text::text_eq;
use crate::time::Timestamp;
use crate::value::{Value, ValueView};

verus! {

/// Why the storage engine refused an operation.
#[derive(Debug)]
pub enum StoreError {
    /// A document of a bulk ingest does not hold a record of the table's kind.
    Schema(SchemaError),
    /// The record does not fit its kind's schema (a timestamp out of range).
    InvalidRecord,
    /// A row with that key is already stored, in a table whose keys are unique.
    DuplicateKey,
    /// No row has that key.
    NotFound,
    /// No table has that name.
    UnknownTable,
}

/// A query for `device` matches rows of that device, or of every device for `*`.
pub open spec fn device_matches(device: Seq<char>, d: Seq<char>) -> bool {
    device == "*"@ || device == d
}

/// The row of a reading lies in `[start, end]` and belongs to a device the query names.
pub open spec fn row_selected(row: Seq<ValueView>, device: Seq<char>, start: int, end: int) -> bool {
    &&& row.len() >= 2
    &&& row[0] matches ValueView::Instant(t) && start <= t && t <= end
    &&& row[1] matches ValueView::Text(d) && device_matches(device, d)
}

pub open spec fn rows_view(rows: Seq<Vec<Value>>) -> Seq<Seq<ValueView>> {
    rows.map_values(|r: Vec<Value>| values_view(r@))
}

/// The rows a range query returns, in insertion order.
pub open spec fn select(rows: Seq<Seq<ValueView>>, device: Seq<char>, start: int, end: int) -> Seq<
    Seq<ValueView>,
>
    decreases rows.len(),
{
    if rows.len() == 0 {
        Seq::empty()
    } else {
        let prev = select(rows.drop_last(), device, start, end);
        if row_selected(rows.last(), device, start, end) {
            prev.push(rows.last())
        } else {
            prev
        }
    }
}

pub open spec fn key_of(row: Seq<ValueView>) -> ValueView {
    row[0]
}

/// The position of the last row whose key is `key`.
pub open spec fn key_pos(rows: Seq<Seq<ValueView>>, key: Seq<char>) -> Option<int>
    decreases rows.len(),
{
    if rows.len() == 0 {
        None
    } else if key_of(rows.last()) == ValueView::Text(key) {
        Some(rows.len() - 1)
    } else {
        key_pos(rows.drop_last(), key)
    }
}

pub open spec fn keys_distinct(rows: Seq<Seq<ValueView>>) -> bool {
    forall|i: int, j: int|
        0 <= i < j < rows.len() ==> key_of(#[trigger] rows[i]) != key_of(#[trigger] rows[j])
}

/// The rows of table `old` after inserting `row` in a table of layout `l`, where the row
/// is taken.
pub open spec fn inserted(l: Layout, old: Seq<Seq<ValueView>>, row: Seq<ValueView>) -> Seq<
    Seq<ValueView>,
> {
    match l {
        Layout::Upsert => match key_pos(old, row[0]->Text_0) {
            Some(i) => old.update(i, row),
            None => old.push(row),
        },
        _ => old.push(row),
    }
}

proof fn lemma_key_pos_some(rows: Seq<Seq<ValueView>>, k: Seq<char>)
    ensures
        key_pos(rows, k) matches Some(i) ==> 0 <= i < rows.len() && key_of(rows[i]) == ValueView::Text(k),
    decreases rows.len(),
{
    if rows.len() > 0 {
        lemma_key_pos_some(rows.drop_last(), k);
    }
}

proof fn lemma_key_pos_none(rows: Seq<Seq<ValueView>>, k: Seq<char>)
    ensures
        key_pos(rows, k) is None ==> forall|i: int|
            0 <= i < rows.len() ==> key_of(#[trigger] rows[i]) != ValueView::Text(k),
    decreases rows.len(),
{
    if rows.len() > 0 {
        lemma_key_pos_none(rows.drop_last(), k);
        if key_pos(rows, k) is None {
            assert forall|i: int| 0 <= i < rows.len() implies key_of(#[trigger] rows[i]) != ValueView::Text(k) by {
                if i < rows.len() - 1 {
                    assert(rows[i] == rows.drop_last()[i]);
                }
            }
        }
    }
}

proof fn lemma_keyed<R: Record>()
    requires
        layout_ok(R::layout_spec(), R::schema_spec()),
        R::layout_spec() is Unique || R::layout_spec() is Upsert,
    ensures
        R::schema_spec().len() >= 1,
        R::schema_spec()[0].ty == FieldType::Text,
        R::schema_spec()[0].presence == PresenceView::Required,
{
}

proof fn lemma_timed<R: Record>()
    requires
        layout_ok(R::layout_spec(), R::schema_spec()),
        R::layout_spec() is Timed,
    ensures
        R::schema_spec().len() >= 2,
        R::schema_spec()[0].ty == FieldType::Instant,
        R::schema_spec()[0].presence == PresenceView::Required,
        R::schema_spec()[1].ty == FieldType::Text,
        R::schema_spec()[1].presence == PresenceView::Required,
{
}

/// The field values of each document, or the error of the first document that does
/// not hold a record.
pub open spec fn decode_all(s: Seq<FieldSpecView>, docs: Seq<Seq<(Seq<char>, ValueView)>>) -> Result<
    Seq<Seq<ValueView>>,
    (SchemaErrorKind, Seq<char>),
>
    decreases docs.len(),
{
    if docs.len() == 0 {
        Ok(Seq::empty())
    } else {
        match decode_all(s, docs.drop_last()) {
            Err(e) => Err(e),
            Ok(rows) => match decode(s, docs.last()) {
                Err(e) => Err(e),
                Ok(v) => Ok(rows.push(v)),
            },
        }
    }
}

pub open spec fn docs_view(docs: Seq<Vec<(String, Value)>>) -> Seq<Seq<(Seq<char>, ValueView)>> {
    docs.map_values(|d: Vec<(String, Value)>| doc_view(d@))
}

proof fn lemma_decode_all_prefix_err(
    s: Seq<FieldSpecView>,
    d: Seq<Seq<(Seq<char>, ValueView)>>,
    k: int,
    e: (SchemaErrorKind, Seq<char>),
)
    requires
        0 <= k <= d.len(),
        decode_all(s, d.take(k)) == Err::<Seq<Seq<ValueView>>, _>(e),
    ensures
        decode_all(s, d) == Err::<Seq<Seq<ValueView>>, _>(e),
    decreases d.len() - k,
{
    if k < d.len() {
        assert(d.take(k + 1).drop_last() =~= d.take(k));
        lemma_decode_all_prefix_err(s, d, k + 1, e);
    } else {
        assert(d.take(k) =~= d);
    }
}

/// The rows of one record kind.
pub struct Table<R: Record> {
    rows: Vec<Vec<Value>>,
    kind: PhantomData<R>,
}

impl<R: Record> Table<R> {
    /// The stored rows, as field values in schema order.
    pub closed spec fn rows(&self) -> Seq<Seq<ValueView>> {
        rows_view(self.rows@)
    }

    #[verifier::type_invariant]
    closed spec fn inv(&self) -> bool {
        &&& forall|i: int|
            0 <= i < self.rows().len() ==> all_fit(R::schema_spec(), #[trigger] self.rows()[i])
        &&& (R::layout_spec() is Unique || R::layout_spec() is Upsert) ==> keys_distinct(
            self.rows(),
        )
    }

    pub fn new() -> (r: Table<R>)
        ensures
            r.rows() == Seq::<Seq<ValueView>>::empty(),
    {
        let r = Table { rows: Vec::new(), kind: PhantomData };
        assert(r.rows() =~= Seq::<Seq<ValueView>>::empty());
        r
    }

    pub fn len(&self) -> (r: usize)
        ensures
            r == self.rows().len(),
    {
        self.rows.len()
    }

    /// Stores `data` as its layout says: a reading or a log row is appended; a policy
    /// replaces the row with its key; an entity is refused if its key is taken.
    pub fn insert(&mut self, data: &R) -> (r: Result<(), StoreError>)
        ensures
            match r {
                Ok(()) => {
                    &&& all_fit(R::schema_spec(), data.values())
                    &&& !(R::layout_spec() is Unique && key_pos(old(self).rows(), data.values()[0]->Text_0) is Some)
                    &&& final(self).rows() == inserted(R::layout_spec(), old(self).rows(), data.values())
                },
                Err(e) => {
                    &&& final(self).rows() == old(self).rows()
                    &&& e == StoreError::InvalidRecord <==> !all_fit(R::schema_spec(), data.values())
                    &&& e == StoreError::InvalidRecord || e == StoreError::DuplicateKey
                    &&& e == StoreError::DuplicateKey ==> R::layout_spec() is Unique && key_pos(old(self).rows(), data.values()[0]->Text_0) is Some
                },
            },
    {
        proof {
            use_type_invariant(&*self);
            R::lemma_layout();
        }
        let vals = data.to_values();
        let schema = R::schema();
        if !check_fits(&schema, &vals) {
            return Err(StoreError::InvalidRecord);
        }
        let ghost row = values_view(vals@);
        let ghost old_rows = self.rows();
        let layout = R::layout();
        let mut held: Table<R> = Table::new();
        core::mem::swap(self, &mut held);
        proof {
            use_type_invariant(&held);
        }
        let mut rows = held.rows;
        assert(rows_view(rows@) == old_rows);
        match layout {
            Layout::Unique | Layout::Upsert => {
                proof {
                    lemma_keyed::<R>();
                    assert(fits(R::schema_spec()[0], row[0]));
                }
                let key = match &vals[0] {
                    Value::Text(k) => k.clone(),
                    _ => String::new(),
                };
                proof {
                    assert forall|k: int| 0 <= k < rows@.len() implies all_fit(R::schema_spec(), #[trigger] values_view(rows@[k]@)) by {
                        assert(old_rows[k] == values_view(rows@[k]@));
                    }
                }
                let pos = find_in::<R>(&rows, key.as_str());
                proof {
                    lemma_key_pos_some(old_rows, key@);
                    lemma_key_pos_none(old_rows, key@);
                }
                match pos {
                    Some(i) => {
                        if let Layout::Unique = layout {
                            proof {
                                assert(rows_view(rows@) == old_rows);
                                assert(forall|k: int| 0 <= k < old_rows.len() ==> all_fit(R::schema_spec(), #[trigger] old_rows[k]));
                                assert(keys_distinct(old_rows));
                            }
                            *self = Table { rows, kind: PhantomData };
                            assert(self.rows() == old_rows);
                            return Err(StoreError::DuplicateKey);
                        }
                        rows.set(i, vals);
                        proof {
                            assert(rows_view(rows@) =~= old_rows.update(i as int, row));
                            assert forall|k: int| 0 <= k < rows@.len() implies all_fit(R::schema_spec(), #[trigger] rows_view(rows@)[k]) by {
                                if k != i {
                                    assert(old_rows[k] == rows_view(rows@)[k]);
                                }
                            }
                            assert forall|a: int, b: int| 0 <= a < b < rows@.len() implies key_of(#[trigger] rows_view(rows@)[a]) != key_of(#[trigger] rows_view(rows@)[b]) by {
                                assert(old_rows[a] == rows_view(rows@)[a] || a == i);
                                assert(old_rows[b] == rows_view(rows@)[b] || b == i);
                            }
                        }
                        *self = Table { rows, kind: PhantomData };
                        assert(self.rows() =~= old_rows.update(i as int, row));
                        proof {
                            assert forall|a: int, b: int| 0 <= a < b < self.rows().len() implies key_of(#[trigger] self.rows()[a]) != key_of(#[trigger] self.rows()[b]) by {
                                assert(old_rows[a] == self.rows()[a] || a == i);
                                assert(old_rows[b] == self.rows()[b] || b == i);
                            }
                        }
                    },
                    None => {
                        rows.push(vals);
                        proof {
                            assert(rows_view(rows@) =~= old_rows.push(row));
                            assert forall|k: int| 0 <= k < rows@.len() implies all_fit(R::schema_spec(), #[trigger] rows_view(rows@)[k]) by {
                                if k < old_rows.len() {
                                    assert(old_rows[k] == rows_view(rows@)[k]);
                                }
                            }
                        }
                        *self = Table { rows, kind: PhantomData };
                        assert(self.rows() =~= old_rows.push(row));
                        proof {
                            assert forall|a: int, b: int| 0 <= a < b < self.rows().len() implies key_of(#[trigger] self.rows()[a]) != key_of(#[trigger] self.rows()[b]) by {
                                if b == old_rows.len() {
                                    assert(self.rows()[a] == old_rows[a]);
                                } else {
                                    assert(self.rows()[a] == old_rows[a]);
                                    assert(self.rows()[b] == old_rows[b]);
                                }
                            }
                        }
                    },
                }
            },
            _ => {
                rows.push(vals);
                proof {
                    assert(rows_view(rows@) =~= old_rows.push(row));
                    assert forall|k: int| 0 <= k < rows@.len() implies all_fit(R::schema_spec(), #[trigger] rows_view(rows@)[k]) by {
                        if k < old_rows.len() {
                            assert(old_rows[k] == rows_view(rows@)[k]);
                        }
                    }
                }
                *self = Table { rows, kind: PhantomData };
                assert(self.rows() =~= old_rows.push(row));
            },
        }
        Ok(())
    }

    /// The readings of `device` (of every device for `*`) whose timestamp lies in
    /// `[start, end]`, both ends included, in insertion order.
    pub fn query(&self, device: &str, start: Timestamp, end: Timestamp) -> (r: Vec<R>)
        requires
            R::layout_spec() is Timed,
        ensures
            r@.map_values(|x: R| x.values()) == select(self.rows(), device@, start.micros as int, end.micros as int),
    {
        let ghost rs = self.rows();
        let ghost s = start.micros as int;
        let ghost e = end.micros as int;
        proof {
            use_type_invariant(self);
            R::lemma_layout();
            lemma_timed::<R>();
        }
        let any = text_eq(device, "*");
        proof {
            reveal_strlit("*");
        }
        let mut out: Vec<R> = Vec::new();
        let mut i: usize = 0;
        assert(rs.take(0) =~= Seq::<Seq<ValueView>>::empty());
        assert(out@.map_values(|x: R| x.values()) =~= Seq::<Seq<ValueView>>::empty());
        while i < self.rows.len()
            invariant
                i <= self.rows@.len(),
                rs == self.rows(),
                any == (device@ == "*"@),
                s == start.micros as int,
                e == end.micros as int,
                forall|k: int| 0 <= k < rs.len() ==> all_fit(R::schema_spec(), #[trigger] rs[k]),
                layout_ok(R::layout_spec(), R::schema_spec()),
                R::layout_spec() is Timed,
                R::schema_spec().len() >= 2,
                R::schema_spec()[0].ty == FieldType::Instant,
                R::schema_spec()[0].presence == PresenceView::Required,
                R::schema_spec()[1].ty == FieldType::Text,
                R::schema_spec()[1].presence == PresenceView::Required,
                out@.map_values(|x: R| x.values()) == select(rs.take(i as int), device@, s, e),
            decreases self.rows@.len() - i,
        {
            let row = &self.rows[i];
            proof {
                assert(all_fit(R::schema_spec(), rs[i as int]));
                assert(rs[i as int] == values_view(row@));
                assert(fits(R::schema_spec()[0], rs[i as int][0]));
                assert(fits(R::schema_spec()[1], rs[i as int][1]));
                assert(rs.take(i + 1).drop_last() =~= rs.take(i as int));
                assert(rs.take(i + 1).last() == rs[i as int]);
            }
            let in_range = instant_within(&row[0], start.micros, end.micros);
            let same_device = match &row[1] {
                Value::Text(d) => any || text_eq(d.as_str(), device),
                _ => false,
            };
            proof {
                reveal_strlit("*");
                assert(rs[i as int][0] == row@[0]@);
                assert(rs[i as int][1] == row@[1]@);
                assert(rs[i as int].len() >= 2);
                assert(in_range == (rs[i as int][0] matches ValueView::Instant(t) && s <= t && t <= e));
                assert(same_device == (rs[i as int][1] matches ValueView::Text(d) && device_matches(device@, d)));
                assert(row_selected(rs[i as int], device@, s, e) == (in_range && same_device));
            }
            if in_range && same_device {
                let ghost before = out@;
                let x = R::from_values(row);
                out.push(x);
                assert(out@.map_values(|x: R| x.values()) =~= before.map_values(|x: R| x.values()).push(rs[i as int]));
            }
            i += 1;
        }
        assert(rs.take(self.rows@.len() as int) =~= rs);
        out
    }

    /// The row with key `key`.
    pub fn get(&self, key: &str) -> (r: Option<R>)
        requires
            R::layout_spec() is Unique || R::layout_spec() is Upsert,
        ensures
            match r {
                Some(x) => key_pos(self.rows(), key@) matches Some(i) && x.values() == self.rows()[i],
                None => key_pos(self.rows(), key@) is None,
            },
    {
        proof {
            use_type_invariant(self);
            R::lemma_layout();
            lemma_key_pos_some(self.rows(), key@);
        }
        proof {
            assert forall|k: int| 0 <= k < self.rows@.len() implies all_fit(R::schema_spec(), #[trigger] values_view(self.rows@[k]@)) by {
                assert(self.rows()[k] == values_view(self.rows@[k]@));
            }
        }
        match find_in::<R>(&self.rows, key) {
            Some(i) => {
                assert(self.rows()[i as int] == values_view(self.rows@[i as int]@));
                Some(R::from_values(&self.rows[i]))
            },
            None => None,
        }
    }

    /// Reads every document as a record of this kind and appends them all, in order;
    /// if one does not hold a record, nothing is stored and its error is returned.
    pub fn ingest(&mut self, docs: &Vec<Vec<(String, Value)>>) -> (r: Result<usize, StoreError>)
        requires
            R::layout_spec() is Timed || R::layout_spec() is Log,
        ensures
            match decode_all(R::schema_spec(), docs_view(docs@)) {
                Ok(rows) => r matches Ok(n) && n == docs@.len() && final(self).rows() == old(self).rows() + rows,
                Err(e) => r matches Err(StoreError::Schema(x)) && x@ == e && final(self).rows() == old(self).rows(),
            },
    {
        let schema = R::schema();
        proof {
            R::lemma_schema();
        }
        let ghost s = R::schema_spec();
        let ghost d = docs_view(docs@);
        let mut decoded: Vec<Vec<Value>> = Vec::new();
        let mut i: usize = 0;
        assert(d.take(0) =~= Seq::<Seq<(Seq<char>, ValueView)>>::empty());
        assert(rows_view(decoded@) =~= Seq::<Seq<ValueView>>::empty());
        while i < docs.len()
            invariant
                i <= docs@.len(),
                s == R::schema_spec(),
                schema_view(schema@) == s,
                schema_wf(s),
                d == docs_view(docs@),
                decode_all(s, d.take(i as int)) == Ok::<_, (SchemaErrorKind, Seq<char>)>(rows_view(decoded@)),
                forall|k: int| 0 <= k < decoded@.len() ==> all_fit(s, #[trigger] rows_view(decoded@)[k]),
            decreases docs@.len() - i,
        {
            assert(d.take(i + 1).drop_last() =~= d.take(i as int));
            assert(d.take(i + 1).last() == doc_view(docs@[i as int]@));
            match decode_values(&schema, &docs[i]) {
                Ok(vals) => {
                    proof {
                        lemma_decode_fits(s, doc_view(docs@[i as int]@));
                    }
                    let ghost before = decoded@;
                    decoded.push(vals);
                    assert(rows_view(decoded@) =~= rows_view(before).push(values_view(vals@)));
                    assert forall|k: int| 0 <= k < decoded@.len() implies all_fit(s, #[trigger] rows_view(decoded@)[k]) by {
                        if k < before.len() {
                            assert(rows_view(before)[k] == rows_view(decoded@)[k]);
                        }
                    }
                },
                Err(e) => {
                    proof {
                        lemma_decode_all_prefix_err(s, d, i as int + 1, e@);
                    }
                    return Err(StoreError::Schema(e));
                },
            }
            i += 1;
        }
        assert(d.take(docs@.len() as int) =~= d);
        let ghost new_rows = rows_view(decoded@);
        let mut held: Table<R> = Table::new();
        core::mem::swap(self, &mut held);
        proof {
            use_type_invariant(&held);
        }
        let ghost old_rows = held.rows();
        let mut rows = held.rows;
        rows.append(&mut decoded);
        proof {
            assert(rows_view(rows@) =~= old_rows + new_rows);
            assert forall|k: int| 0 <= k < rows@.len() implies all_fit(R::schema_spec(), #[trigger] rows_view(rows@)[k]) by {
                if k < old_rows.len() {
                    assert(old_rows[k] == rows_view(rows@)[k]);
                } else {
                    assert(new_rows[k - old_rows.len()] == rows_view(rows@)[k]);
                }
            }
        }
        *self = Table { rows, kind: PhantomData };
        Ok(docs.len())
    }

    /// Appends the rows of `other`, in order.
    pub fn append_all(&mut self, other: Table<R>)
        requires
            R::layout_spec() is Timed || R::layout_spec() is Log,
        ensures
            final(self).rows() == old(self).rows() + other.rows(),
    {
        proof {
            use_type_invariant(&*self);
            use_type_invariant(&other);
        }
        let ghost old_rows = self.rows();
        let mut held: Table<R> = Table::new();
        core::mem::swap(self, &mut held);
        proof {
            use_type_invariant(&held);
        }
        let mut rows = held.rows;
        assert(rows_view(rows@) == old_rows);
        let ghost other_rows = other.rows();
        let mut more = other.rows;
        assert(rows_view(more@) == other_rows);
        rows.append(&mut more);
        proof {
            assert(rows_view(rows@) =~= old_rows + other_rows);
            assert forall|k: int| 0 <= k < rows@.len() implies all_fit(R::schema_spec(), #[trigger] rows_view(rows@)[k]) by {
                if k < old_rows.len() {
                    assert(old_rows[k] == rows_view(rows@)[k]);
                } else {
                    assert(other_rows[k - old_rows.len()] == rows_view(rows@)[k]);
                }
            }
        }
        *self = Table { rows, kind: PhantomData };
        assert(self.rows() =~= old_rows + other.rows());
    }

}

/// A query after inserting a reading returns what it returned before, followed by
/// that reading exactly when its timestamp lies in `[start, end]` and its device is
/// the one asked for (or the query asks for `*`).
pub proof fn law_query_after_insert(
    old: Seq<Seq<ValueView>>,
    row: Seq<ValueView>,
    device: Seq<char>,
    start: int,
    end: int,
)
    ensures
        select(inserted(Layout::Timed, old, row), device, start, end) == if row_selected(
            row,
            device,
            start,
            end,
        ) {
            select(old, device, start, end).push(row)
        } else {
            select(old, device, start, end)
        },
{
    assert(old.push(row).drop_last() =~= old);
}

/// A reading whose timestamp equals either end of the range, of the device asked
/// for, is returned: both ends are included.
pub proof fn law_bounds_inclusive(
    old: Seq<Seq<ValueView>>,
    row: Seq<ValueView>,
    device: Seq<char>,
    start: int,
    end: int,
)
    requires
        row.len() >= 2,
        row[1] == ValueView::Text(device),
        row[0] matches ValueView::Instant(t) && (t == start || t == end),
        start <= end,
    ensures
        select(inserted(Layout::Timed, old, row), device, start, end).last() == row,
{
    law_query_after_insert(old, row, device, start, end);
}

/// A reading of another device, or with a timestamp outside `[start, end]`, is not
/// returned by a query that names a device.
pub proof fn law_outside_excluded(
    old: Seq<Seq<ValueView>>,
    row: Seq<ValueView>,
    device: Seq<char>,
    start: int,
    end: int,
)
    requires
        device != "*"@,
        row.len() >= 2,
        row[1] != ValueView::Text(device) || (row[0] matches ValueView::Instant(t) && (t < start || t > end)),
    ensures
        select(inserted(Layout::Timed, old, row), device, start, end) == select(old, device, start, end),
{
    law_query_after_insert(old, row, device, start, end);
}

/// The rows a query returns from two runs of rows are those of the first run,
/// then those of the second.
pub proof fn law_select_append(
    a: Seq<Seq<ValueView>>,
    b: Seq<Seq<ValueView>>,
    device: Seq<char>,
    start: int,
    end: int,
)
    ensures
        select(a + b, device, start, end) == select(a, device, start, end) + select(b, device, start, end),
    decreases b.len(),
{
    if b.len() == 0 {
        assert(a + b =~= a);
        assert(select(a, device, start, end) + Seq::empty() =~= select(a, device, start, end));
    } else {
        assert((a + b).drop_last() =~= a + b.drop_last());
        assert((a + b).last() == b.last());
        law_select_append(a, b.drop_last(), device, start, end);
        let sa = select(a, device, start, end);
        let sb = select(b.drop_last(), device, start, end);
        if row_selected(b.last(), device, start, end) {
            assert(sa + sb.push(b.last()) =~= (sa + sb).push(b.last()));
        }
    }
}

/// Committing staged readings into a table where a query found nothing makes the
/// query return exactly the staged readings it selects: with `n` staged readings,
/// all in range and of the device, exactly `n`.
pub proof fn law_commit_visible(
    old: Seq<Seq<ValueView>>,
    staged: Seq<Seq<ValueView>>,
    device: Seq<char>,
    start: int,
    end: int,
)
    requires
        select(old, device, start, end).len() == 0,
        forall|i: int| 0 <= i < staged.len() ==> row_selected(#[trigger] staged[i], device, start, end),
    ensures
        select(old + staged, device, start, end) == staged,
    decreases staged.len(),
{
    law_select_append(old, staged, device, start, end);
    lemma_select_all(staged, device, start, end);
    assert(select(old, device, start, end) + staged =~= staged);
}

proof fn lemma_select_all(rows: Seq<Seq<ValueView>>, device: Seq<char>, start: int, end: int)
    requires
        forall|i: int| 0 <= i < rows.len() ==> row_selected(#[trigger] rows[i], device, start, end),
    ensures
        select(rows, device, start, end) == rows,
    decreases rows.len(),
{
    if rows.len() > 0 {
        assert(row_selected(rows[rows.len() - 1], device, start, end));
        lemma_select_all(rows.drop_last(), device, start, end);
        assert(rows.drop_last().push(rows.last()) =~= rows);
    }
}

/// Two policies inserted with the same key leave exactly one row with that key, the
/// second one; keys stay distinct.
pub proof fn law_upsert_keeps_one(
    old: Seq<Seq<ValueView>>,
    first: Seq<ValueView>,
    second: Seq<ValueView>,
    key: Seq<char>,
)
    requires
        keys_distinct(old),
        first.len() >= 1,
        second.len() >= 1,
        first[0] == ValueView::Text(key),
        second[0] == ValueView::Text(key),
    ensures
        ({
            let rows = inserted(Layout::Upsert, inserted(Layout::Upsert, old, first), second);
            &&& keys_distinct(rows)
            &&& key_pos(rows, key) matches Some(i) && rows[i] == second
            &&& forall|j: int| 0 <= j < rows.len() && key_of(#[trigger] rows[j]) == ValueView::Text(key) ==> rows[j] == second
        }),
{
    let one = inserted(Layout::Upsert, old, first);
    lemma_upsert(old, first, key);
    lemma_upsert(one, second, key);
}

proof fn lemma_upsert(old: Seq<Seq<ValueView>>, row: Seq<ValueView>, key: Seq<char>)
    requires
        keys_distinct(old),
        row.len() >= 1,
        row[0] == ValueView::Text(key),
    ensures
        ({
            let rows = inserted(Layout::Upsert, old, row);
            &&& keys_distinct(rows)
            &&& key_pos(rows, key) matches Some(i) && rows[i] == row
            &&& forall|j: int| 0 <= j < rows.len() && key_of(#[trigger] rows[j]) == ValueView::Text(key) ==> rows[j] == row
        }),
{
    lemma_key_pos_some(old, key);
    lemma_key_pos_none(old, key);
    let rows = inserted(Layout::Upsert, old, row);
    match key_pos(old, key) {
        Some(i) => {
            assert(rows == old.update(i, row));
            assert forall|a: int, b: int| 0 <= a < b < rows.len() implies key_of(#[trigger] rows[a]) != key_of(#[trigger] rows[b]) by {
                if a != i && b != i {
                    assert(rows[a] == old[a] && rows[b] == old[b]);
                } else if a == i {
                    assert(rows[b] == old[b]);
                } else {
                    assert(rows[a] == old[a]);
                }
            }
            lemma_key_pos_some(rows, key);
            lemma_key_pos_none(rows, key);
            assert forall|j: int| 0 <= j < rows.len() && key_of(#[trigger] rows[j]) == ValueView::Text(key) implies rows[j] == row by {
                if j != i {
                    assert(rows[j] == old[j]);
                }
            }
            assert(key_of(rows[i]) == ValueView::Text(key));
        },
        None => {
            assert(rows == old.push(row));
            assert(rows.drop_last() =~= old);
            assert forall|a: int, b: int| 0 <= a < b < rows.len() implies key_of(#[trigger] rows[a]) != key_of(#[trigger] rows[b]) by {
                assert(rows[a] == old[a]);
                if b < old.len() {
                    assert(rows[b] == old[b]);
                }
            }
            assert forall|j: int| 0 <= j < rows.len() && key_of(#[trigger] rows[j]) == ValueView::Text(key) implies rows[j] == row by {
                if j < old.len() {
                    assert(rows[j] == old[j]);
                }
            }
        },
    }
}

fn instant_within(v: &Value, start: i64, end: i64) -> (r: bool)
    ensures
        r == (v@ matches ValueView::Instant(t) && start <= t && t <= end),
{
    match v {
        Value::Instant(t) => start <= *t && *t <= end,
        _ => false,
    }
}

/// Position of the last row whose key is `key`.
fn find_in<R: Record>(rows: &Vec<Vec<Value>>, key: &str) -> (r: Option<usize>)
    requires
        layout_ok(R::layout_spec(), R::schema_spec()),
        R::layout_spec() is Unique || R::layout_spec() is Upsert,
        forall|k: int| 0 <= k < rows@.len() ==> all_fit(R::schema_spec(), #[trigger] values_view(rows@[k]@)),
    ensures
        r matches Some(i) ==> key_pos(rows_view(rows@), key@) == Some(i as int),
        r is None ==> key_pos(rows_view(rows@), key@) is None,
{
    let ghost rs = rows_view(rows@);
    let mut i: usize = rows.len();
    assert(rs.take(i as int) =~= rs);
    while i > 0
        invariant
            i <= rows@.len(),
            rs == rows_view(rows@),
            key_pos(rs, key@) == key_pos(rs.take(i as int), key@),
            forall|k: int| 0 <= k < rows@.len() ==> all_fit(R::schema_spec(), #[trigger] values_view(rows@[k]@)),
            layout_ok(R::layout_spec(), R::schema_spec()),
            R::layout_spec() is Unique || R::layout_spec() is Upsert,
        decreases i,
    {
        let ghost t = rs.take(i as int);
        assert(t.drop_last() =~= rs.take(i - 1));
        let row = &rows[i - 1];
        proof {
            lemma_keyed::<R>();
            assert(all_fit(R::schema_spec(), values_view(rows@[i - 1]@)));
            assert(fits(R::schema_spec()[0], values_view(row@)[0]));
            assert(rs[i - 1] == values_view(row@));
        }
        let hit = match &row[0] {
            Value::Text(s) => text_eq(s.as_str(), key),
            _ => false,
        };
        if hit {
            return Some(i - 1);
        }
        i -= 1;
    }
    None
}

} // verus!
