use crate::ids::Id;
use crate::prescriptions::models::{
    PrescribedDrug, Prescription, PrescriptionDoctor, PrescriptionFill, PrescriptionModel,
    PrescriptionPatient, PrescriptionType,
};
use std::collections::HashMap;
use vstd::prelude::*;
use vstd::seq_lib::lemma_seq_contains_after_push;

verus! {

/// One flat row of the joined prescription read: the full prescription
/// header, one prescribed drug's fields, and the fill's fields where the left
/// join found one.
#[derive(Debug)]
pub struct PrescriptionRow {
    pub prescription_id: Id,
    pub doctor: PrescriptionDoctor,
    pub patient: PrescriptionPatient,
    pub prescription_type: PrescriptionType,
    pub start_date: i64,
    pub end_date: i64,
    pub created_at: i64,
    pub updated_at: i64,
    pub prescribed_drug_id: Id,
    pub drug_id: Id,
    pub quantity: i32,
    pub drug_created_at: i64,
    pub drug_updated_at: i64,
    pub fill_id: Option<Id>,
    pub fill_pharmacist_id: Option<Id>,
    pub fill_created_at: Option<i64>,
    pub fill_updated_at: Option<i64>,
}

/// A row that names a fill also carries the fill's other fields. A row that
/// breaks this is a contract violation of the source join and makes the
/// aggregation fail loudly.
pub open spec fn row_wf(r: PrescriptionRow) -> bool {
    r.fill_id is Some ==> r.fill_pharmacist_id is Some && r.fill_created_at is Some
        && r.fill_updated_at is Some
}

/// The line item a row contributes to its prescription.
pub open spec fn row_drug(r: PrescriptionRow) -> PrescribedDrug {
    PrescribedDrug {
        id: r.prescribed_drug_id,
        prescription_id: r.prescription_id,
        drug_id: r.drug_id,
        quantity: r.quantity,
        created_at: r.drug_created_at,
        updated_at: r.drug_updated_at,
    }
}

/// The fill a row carries, if it names one.
pub open spec fn row_fill(r: PrescriptionRow) -> Option<PrescriptionFill>
    recommends
        row_wf(r),
{
    if r.fill_id is Some {
        Some(
            PrescriptionFill {
                id: r.fill_id->0,
                prescription_id: r.prescription_id,
                pharmacist_id: r.fill_pharmacist_id->0,
                created_at: r.fill_created_at->0,
                updated_at: r.fill_updated_at->0,
            },
        )
    } else {
        None
    }
}

/// The aggregate a single row starts: the row's header, its one line item,
/// and its fill if it names one.
pub open spec fn row_aggregate(r: PrescriptionRow) -> PrescriptionModel
    recommends
        row_wf(r),
{
    PrescriptionModel {
        id: r.prescription_id,
        doctor: r.doctor,
        patient: r.patient,
        prescribed_drugs: seq![row_drug(r)],
        prescription_type: r.prescription_type,
        fill: row_fill(r),
        start_date: r.start_date as int,
        end_date: r.end_date as int,
        created_at: r.created_at as int,
        updated_at: r.updated_at as int,
    }
}

/// The aggregate with one more line item appended.
pub open spec fn push_drug(m: PrescriptionModel, d: PrescribedDrug) -> PrescriptionModel {
    PrescriptionModel { prescribed_drugs: m.prescribed_drugs.push(d), ..m }
}

/// No earlier row belongs to the same prescription: row `i` is the first
/// encounter of its prescription id.
pub open spec fn first_occurrence(rows: Seq<PrescriptionRow>, i: int) -> bool {
    forall|j: int| 0 <= j < i ==> (#[trigger] rows[j]).prescription_id != rows[i].prescription_id
}

/// Every row that first encounters its prescription carries consistent fill
/// fields; rows for an already-seen prescription have their fill fields
/// ignored, as the join repeats them.
pub open spec fn rows_fill_consistent(rows: Seq<PrescriptionRow>) -> bool {
    forall|i: int| 0 <= i < rows.len() && first_occurrence(rows, i) ==> row_wf(#[trigger] rows[i])
}

/// The distinct prescription ids of the rows, in first-encounter order.
pub open spec fn encounter_ids(rows: Seq<PrescriptionRow>) -> Seq<Id>
    decreases rows.len(),
{
    if rows.len() == 0 {
        Seq::empty()
    } else {
        let prev = encounter_ids(rows.drop_last());
        if prev.contains(rows.last().prescription_id) {
            prev
        } else {
            prev.push(rows.last().prescription_id)
        }
    }
}

/// The rows belonging to one prescription, in row order.
pub open spec fn rows_of(rows: Seq<PrescriptionRow>, id: Id) -> Seq<PrescriptionRow> {
    rows.filter(|r: PrescriptionRow| r.prescription_id == id)
}

/// The row whose header and fill fields populate the aggregate: the first
/// row of the prescription.
pub open spec fn head_row(rows: Seq<PrescriptionRow>, id: Id) -> PrescriptionRow {
    rows_of(rows, id)[0]
}

/// The aggregate one prescription's rows fold into: the header and fill from
/// the first row, and one line item per row, in row order.
#[verifier::opaque]
pub open spec fn aggregate_of(rows: Seq<PrescriptionRow>, id: Id) -> PrescriptionModel
    recommends
        rows_of(rows, id).len() > 0,
{
    let head = head_row(rows, id);
    PrescriptionModel {
        id: id,
        doctor: head.doctor,
        patient: head.patient,
        prescribed_drugs: rows_of(rows, id).map_values(|r: PrescriptionRow| row_drug(r)),
        prescription_type: head.prescription_type,
        fill: row_fill(head),
        start_date: head.start_date as int,
        end_date: head.end_date as int,
        created_at: head.created_at as int,
        updated_at: head.updated_at as int,
    }
}

/// What the whole flat row set folds into: one aggregate per distinct
/// prescription id, in first-encounter order.
pub open spec fn aggregate_rows_spec(rows: Seq<PrescriptionRow>) -> Seq<PrescriptionModel> {
    encounter_ids(rows).map_values(|id: Id| aggregate_of(rows, id))
}

/// The mathematical values of a sequence of aggregates.
pub open spec fn prescription_views(v: Seq<Prescription>) -> Seq<PrescriptionModel> {
    v.map_values(|p: Prescription| p@)
}

/// A prescription id occurs in the encounter list exactly when some row
/// carries it.
pub proof fn lemma_encounter_contains(rows: Seq<PrescriptionRow>, id: Id)
    ensures
        encounter_ids(rows).contains(id) <==> exists|j: int|
            0 <= j < rows.len() && (#[trigger] rows[j]).prescription_id == id,
    decreases rows.len(),
{
    broadcast use lemma_seq_contains_after_push;

    if rows.len() > 0 {
        let prev = rows.drop_last();
        lemma_encounter_contains(prev, id);
        if encounter_ids(rows).contains(id) {
            if rows.last().prescription_id == id {
                assert(rows[rows.len() - 1].prescription_id == id);
            } else {
                assert(encounter_ids(prev).contains(id));
                let j = choose|j: int|
                    0 <= j < prev.len() && (#[trigger] prev[j]).prescription_id == id;
                assert(rows[j].prescription_id == id);
            }
        }
        if exists|j: int| 0 <= j < rows.len() && (#[trigger] rows[j]).prescription_id == id {
            let j = choose|j: int| 0 <= j < rows.len() && (#[trigger] rows[j]).prescription_id
                == id;
            if j < rows.len() - 1 {
                assert(prev[j].prescription_id == id);
                assert(encounter_ids(prev).contains(id));
            }
            assert(encounter_ids(rows).contains(id));
        }
    }
}

/// Each prescription id appears in the encounter list once.
proof fn lemma_encounter_no_duplicates(rows: Seq<PrescriptionRow>)
    ensures
        encounter_ids(rows).no_duplicates(),
    decreases rows.len(),
{
    broadcast use lemma_seq_contains_after_push;

    if rows.len() > 0 {
        lemma_encounter_no_duplicates(rows.drop_last());
    }
}

/// Rows that carry an id also filter to a nonempty row set for it, and the
/// other way round.
proof fn lemma_rows_of_nonempty(rows: Seq<PrescriptionRow>, id: Id)
    ensures
        rows_of(rows, id).len() > 0 <==> exists|j: int|
            0 <= j < rows.len() && (#[trigger] rows[j]).prescription_id == id,
{
    broadcast use {
        Seq::<PrescriptionRow>::lemma_filter_pred,
        Seq::<PrescriptionRow>::lemma_filter_contains_rev,
    };

    if rows_of(rows, id).len() > 0 {
        let e = rows_of(rows, id)[0];
        assert(rows_of(rows, id).contains(e));
        assert(rows.contains(e));
        let w = choose|w: int| 0 <= w < rows.len() && rows[w] == e;
        assert(rows[w].prescription_id == id);
    }
    if exists|j: int| 0 <= j < rows.len() && (#[trigger] rows[j]).prescription_id == id {
        let w = choose|w: int| 0 <= w < rows.len() && (#[trigger] rows[w]).prescription_id == id;
        rows.lemma_filter_contains(|r: PrescriptionRow| r.prescription_id == id, w);
        assert(rows_of(rows, id).contains(rows[w]));
    }
}

/// One fold step on a row of an already-seen prescription: the encounter
/// list stays, the row's aggregate gains the row's line item, and every
/// other aggregate is untouched.
proof fn lemma_aggregate_step_found(s: Seq<PrescriptionRow>, i: int, pos: int)
    requires
        0 <= i < s.len(),
        0 <= pos < encounter_ids(s.take(i)).len(),
        encounter_ids(s.take(i))[pos] == s[i].prescription_id,
    ensures
        encounter_ids(s.take(i + 1)) == encounter_ids(s.take(i)),
        aggregate_rows_spec(s.take(i + 1)) == aggregate_rows_spec(s.take(i)).update(
            pos,
            push_drug(aggregate_rows_spec(s.take(i))[pos], row_drug(s[i])),
        ),
{
    reveal(aggregate_of);
    broadcast use {
        lemma_seq_contains_after_push,
        Seq::<PrescriptionRow>::lemma_take_succ_push,
        Seq::<PrescriptionRow>::lemma_filter_push,
        Seq::<PrescriptionRow>::lemma_filter_pred,
        Seq::<PrescriptionRow>::lemma_filter_contains_rev,
        Seq::<Id>::lemma_index_contains,
    };

    let prefix = s.take(i);
    let next = s.take(i + 1);
    let r = s[i];
    let id = r.prescription_id;
    assert(next =~= prefix.push(r));
    assert(next.drop_last() =~= prefix);
    assert(encounter_ids(prefix).contains(id));
    assert(encounter_ids(next) == encounter_ids(prefix));
    lemma_encounter_no_duplicates(prefix);
    lemma_encounter_contains(prefix, id);
    lemma_rows_of_nonempty(prefix, id);
    assert forall|j: int| 0 <= j < encounter_ids(prefix).len() implies aggregate_rows_spec(next)[j]
        == aggregate_rows_spec(prefix).update(
        pos,
        push_drug(aggregate_rows_spec(prefix)[pos], row_drug(r)),
    )[j] by {
        let id_j = encounter_ids(prefix)[j];
        if j == pos {
            assert(rows_of(next, id) == rows_of(prefix, id).push(r));
            assert(rows_of(next, id)[0] == rows_of(prefix, id)[0]);
            assert(rows_of(next, id).map_values(|rr: PrescriptionRow| row_drug(rr)) =~= rows_of(
                prefix,
                id,
            ).map_values(|rr: PrescriptionRow| row_drug(rr)).push(row_drug(r)));
            assert(aggregate_of(next, id) == push_drug(aggregate_of(prefix, id), row_drug(r)));
        } else {
            assert(id_j != id) by {
                if id_j == id {
                    assert(encounter_ids(prefix)[j] == encounter_ids(prefix)[pos]);
                }
            }
            assert(rows_of(next, id_j) == rows_of(prefix, id_j));
            assert(aggregate_of(next, id_j) == aggregate_of(prefix, id_j));
        }
    }
    assert(aggregate_rows_spec(next) =~= aggregate_rows_spec(prefix).update(
        pos,
        push_drug(aggregate_rows_spec(prefix)[pos], row_drug(r)),
    ));
}

/// One fold step on a row of a prescription not seen before: its id joins
/// the encounter list, a fresh aggregate is appended, and every existing
/// aggregate is untouched.
proof fn lemma_aggregate_step_new(s: Seq<PrescriptionRow>, i: int)
    requires
        0 <= i < s.len(),
        !encounter_ids(s.take(i)).contains(s[i].prescription_id),
    ensures
        encounter_ids(s.take(i + 1)) == encounter_ids(s.take(i)).push(s[i].prescription_id),
        aggregate_rows_spec(s.take(i + 1)) == aggregate_rows_spec(s.take(i)).push(
            row_aggregate(s[i]),
        ),
        first_occurrence(s, i),
{
    reveal(aggregate_of);
    broadcast use {
        lemma_seq_contains_after_push,
        Seq::<PrescriptionRow>::lemma_take_succ_push,
        Seq::<PrescriptionRow>::lemma_filter_push,
        Seq::<PrescriptionRow>::lemma_filter_pred,
        Seq::<PrescriptionRow>::lemma_filter_contains_rev,
        Seq::<Id>::lemma_index_contains,
    };

    let prefix = s.take(i);
    let next = s.take(i + 1);
    let r = s[i];
    let id = r.prescription_id;
    assert(next =~= prefix.push(r));
    assert(next.drop_last() =~= prefix);
    assert(encounter_ids(next) == encounter_ids(prefix).push(id));
    lemma_encounter_contains(prefix, id);
    lemma_rows_of_nonempty(prefix, id);
    assert(rows_of(prefix, id).len() == 0);
    assert(rows_of(next, id) == rows_of(prefix, id).push(r));
    assert(rows_of(next, id) =~= seq![r]);
    assert(head_row(next, id) == r);
    assert(rows_of(next, id).map_values(|rr: PrescriptionRow| row_drug(rr)) =~= seq![row_drug(r)]);
    assert(aggregate_of(next, id) == row_aggregate(r));
    assert forall|j: int| 0 <= j < i implies (#[trigger] s[j]).prescription_id != id by {
        assert(prefix[j] == s[j]);
    }
    assert forall|j: int| 0 <= j < encounter_ids(prefix).len() implies aggregate_rows_spec(next)[j]
        == aggregate_rows_spec(prefix)[j] by {
        let id_j = encounter_ids(prefix)[j];
        assert(encounter_ids(prefix).contains(id_j));
        assert(id_j != id);
        assert(rows_of(next, id_j) == rows_of(prefix, id_j));
        assert(aggregate_of(next, id_j) == aggregate_of(prefix, id_j));
    }
    assert(aggregate_rows_spec(next) =~= aggregate_rows_spec(prefix).push(row_aggregate(r)));
}

/// Two rows agree on every prescription-level field: the header and the fill
/// columns, which the source join repeats on every row of one prescription.
pub open spec fn same_header(a: PrescriptionRow, b: PrescriptionRow) -> bool {
    &&& a.prescription_id == b.prescription_id
    &&& a.doctor == b.doctor
    &&& a.patient == b.patient
    &&& a.prescription_type == b.prescription_type
    &&& a.start_date == b.start_date
    &&& a.end_date == b.end_date
    &&& a.created_at == b.created_at
    &&& a.updated_at == b.updated_at
    &&& a.fill_id == b.fill_id
    &&& a.fill_pharmacist_id == b.fill_pharmacist_id
    &&& a.fill_created_at == b.fill_created_at
    &&& a.fill_updated_at == b.fill_updated_at
}

/// Rows of the same prescription never disagree on header or fill fields.
pub open spec fn rows_header_consistent(rows: Seq<PrescriptionRow>) -> bool {
    forall|i: int, j: int|
        0 <= i < rows.len() && 0 <= j < rows.len() && (#[trigger] rows[i]).prescription_id == (
        #[trigger] rows[j]).prescription_id ==> same_header(rows[i], rows[j])
}

/// Two aggregates that carry the same header, fill and line-item multiset:
/// equal but for the order of the line items.
pub open spec fn aggregates_equivalent(a: PrescriptionModel, b: PrescriptionModel) -> bool {
    &&& a.id == b.id
    &&& a.doctor == b.doctor
    &&& a.patient == b.patient
    &&& a.prescribed_drugs.to_multiset() == b.prescribed_drugs.to_multiset()
    &&& a.prescription_type == b.prescription_type
    &&& a.fill == b.fill
    &&& a.start_date == b.start_date
    &&& a.end_date == b.end_date
    &&& a.created_at == b.created_at
    &&& a.updated_at == b.updated_at
}

/// Mapping a function over two sequences with the same multiset of elements
/// gives two sequences with the same multiset of images.
proof fn lemma_map_multiset<A, B>(s1: Seq<A>, s2: Seq<A>, f: spec_fn(A) -> B)
    requires
        s1.to_multiset() == s2.to_multiset(),
    ensures
        s1.map_values(f).to_multiset() == s2.map_values(f).to_multiset(),
    decreases s1.len(),
{
    broadcast use vstd::seq_lib::group_to_multiset_ensures;

    if s1.len() == 0 {
        assert(s1.to_multiset().len() == s1.len());
        assert(s2.to_multiset().len() == s2.len());
        assert(s2.len() == 0);
        assert(s1.map_values(f) =~= Seq::<B>::empty());
        assert(s2.map_values(f) =~= Seq::<B>::empty());
        assert(s1.map_values(f).to_multiset() =~= s2.map_values(f).to_multiset());
    } else {
        let x = s1.last();
        assert(s1[s1.len() - 1] == x);
        assert(s1.contains(x));
        assert(s2.to_multiset().count(x) > 0);
        assert(s2.contains(x));
        let j = choose|j: int| 0 <= j < s2.len() && s2[j] == x;
        let s2r = s2.remove(j);
        assert(s2r.to_multiset() =~= s2.to_multiset().remove(x));
        assert(s1.drop_last().push(x) =~= s1);
        assert(s1.to_multiset() =~= s1.drop_last().to_multiset().insert(x));
        assert(s1.drop_last().to_multiset() =~= s1.to_multiset().remove(x));
        assert(s1.drop_last().to_multiset() == s2r.to_multiset());
        lemma_map_multiset(s1.drop_last(), s2r, f);
        let m1 = s1.map_values(f);
        let m2 = s2.map_values(f);
        assert(m1 =~= s1.drop_last().map_values(f).push(f(x)));
        assert(m1.to_multiset() =~= s1.drop_last().map_values(f).to_multiset().insert(f(x)));
        assert(s2r.map_values(f) =~= m2.remove(j));
        assert(m2[j] == f(x));
        assert(m2.remove(j).to_multiset() =~= m2.to_multiset().remove(f(x)));
        assert(m2.to_multiset().remove(f(x)) == s1.drop_last().map_values(f).to_multiset());
        assert(m2.contains(f(x)));
        assert(m2.to_multiset().count(f(x)) > 0);
        assert(m1.to_multiset() =~= m2.to_multiset()) by {
            assert forall|v: B| m1.to_multiset().count(v) == m2.to_multiset().count(v) by {
                assert(m1.to_multiset().remove(f(x)) =~= s1.drop_last().map_values(
                    f,
                ).to_multiset());
                assert(m1.to_multiset().remove(f(x)).count(v) == m2.to_multiset().remove(
                    f(x),
                ).count(v));
            }
        }
    }
}

/// The fold is independent of how the rows of one prescription interleave:
/// two row sets with the same first-encounter id order, the same multiset of
/// rows per prescription, and headers that agree within a prescription fold
/// into the same aggregates, up to the order of each aggregate's line items.
pub proof fn lemma_aggregation_order_independent(
    rows1: Seq<PrescriptionRow>,
    rows2: Seq<PrescriptionRow>,
)
    requires
        rows_header_consistent(rows1),
        encounter_ids(rows1) == encounter_ids(rows2),
        forall|id: Id| (#[trigger] rows_of(rows1, id)).to_multiset() == rows_of(
            rows2,
            id,
        ).to_multiset(),
    ensures
        aggregate_rows_spec(rows1).len() == aggregate_rows_spec(rows2).len(),
        forall|k: int|
            0 <= k < aggregate_rows_spec(rows1).len() ==> aggregates_equivalent(
                #[trigger] aggregate_rows_spec(rows1)[k],
                aggregate_rows_spec(rows2)[k],
            ),
{
    broadcast use vstd::seq_lib::group_to_multiset_ensures;
    broadcast use {
        Seq::<PrescriptionRow>::lemma_filter_pred,
        Seq::<PrescriptionRow>::lemma_filter_contains_rev,
    };

    reveal(aggregate_of);
    assert forall|k: int| 0 <= k < aggregate_rows_spec(rows1).len() implies aggregates_equivalent(
        #[trigger] aggregate_rows_spec(rows1)[k],
        aggregate_rows_spec(rows2)[k],
    ) by {
        let id = encounter_ids(rows1)[k];
        assert(encounter_ids(rows1).contains(id));
        lemma_encounter_contains(rows1, id);
        lemma_rows_of_nonempty(rows1, id);
        let of1 = rows_of(rows1, id);
        let of2 = rows_of(rows2, id);
        assert(of1.to_multiset() == of2.to_multiset());
        assert(of1.to_multiset().len() == of1.len());
        assert(of2.to_multiset().len() == of2.len());
        assert(of2.len() == of1.len());
        let h1 = of1[0];
        let h2 = of2[0];
        of1.lemma_index_contains(0);
        of2.lemma_index_contains(0);
        assert(h1.prescription_id == id && h2.prescription_id == id);
        assert(of1.contains(h1));
        assert(rows1.contains(h1));
        assert(of2.contains(h2));
        assert(of2.to_multiset().count(h2) > 0);
        assert(of1.contains(h2));
        assert(rows1.contains(h2));
        let w1 = choose|w: int| 0 <= w < rows1.len() && rows1[w] == h1;
        let w2 = choose|w: int| 0 <= w < rows1.len() && rows1[w] == h2;
        assert(same_header(rows1[w1], rows1[w2]));
        lemma_map_multiset(of1, of2, |r: PrescriptionRow| row_drug(r));
        assert(aggregate_of(rows1, id).prescribed_drugs =~= of1.map_values(
            |r: PrescriptionRow| row_drug(r),
        ));
        assert(aggregate_of(rows2, id).prescribed_drugs =~= of2.map_values(
            |r: PrescriptionRow| row_drug(r),
        ));
    }
}

/// Appending an aggregate appends its value.
pub(crate) proof fn lemma_views_push(v: Seq<Prescription>, p: Prescription)
    ensures
        prescription_views(v.push(p)) == prescription_views(v).push(p@),
{
    assert(prescription_views(v.push(p)) =~= prescription_views(v).push(p@));
}

/// Replacing one aggregate replaces its value.
pub(crate) proof fn lemma_views_update(v: Seq<Prescription>, i: int, p: Prescription)
    requires
        0 <= i < v.len(),
    ensures
        prescription_views(v.update(i, p)) == prescription_views(v).update(i, p@),
{
    assert(prescription_views(v.update(i, p)) =~= prescription_views(v).update(i, p@));
}

/// When rows of one prescription agree on their header and fill fields, the
/// folded aggregate carries a fill exactly when any row of that prescription
/// names one.
pub proof fn lemma_fill_present_iff_any_row_names_one(rows: Seq<PrescriptionRow>, id: Id)
    requires
        rows_header_consistent(rows),
        encounter_ids(rows).contains(id),
    ensures
        aggregate_of(rows, id).fill is Some <==> exists|j: int|
            0 <= j < rows.len() && (#[trigger] rows[j]).prescription_id == id && rows[j].fill_id
                is Some,
{
    reveal(aggregate_of);
    broadcast use {
        Seq::<PrescriptionRow>::lemma_filter_pred,
        Seq::<PrescriptionRow>::lemma_filter_contains_rev,
    };

    lemma_encounter_contains(rows, id);
    lemma_rows_of_nonempty(rows, id);
    let head = head_row(rows, id);
    rows_of(rows, id).lemma_index_contains(0);
    assert(rows_of(rows, id).contains(head));
    assert(rows.contains(head));
    let h = choose|h: int| 0 <= h < rows.len() && rows[h] == head;
    if aggregate_of(rows, id).fill is Some {
        assert(rows[h].prescription_id == id && rows[h].fill_id is Some);
    }
    if exists|j: int|
        0 <= j < rows.len() && (#[trigger] rows[j]).prescription_id == id && rows[j].fill_id
            is Some {
        let j = choose|j: int|
            0 <= j < rows.len() && (#[trigger] rows[j]).prescription_id == id && rows[j].fill_id
                is Some;
        assert(same_header(rows[h], rows[j]));
        assert(head.fill_id is Some);
    }
}

/// Why the fold failed: a row named a fill but left its other fill fields
/// null.
#[derive(Debug, Clone, Copy, PartialEq, Eq, Structural)]
pub enum AggregationError {
    MissingFillData,
}

impl AggregationError {
    pub fn message(&self) -> (r: String)
        ensures
            r@ == "row names a fill but misses its fields"@,
    {
        String::from_str("row names a fill but misses its fields")
    }
}

/// The line item a row contributes, executably.
fn build_row_drug(row: &PrescriptionRow) -> (d: PrescribedDrug)
    ensures
        d == row_drug(*row),
{
    PrescribedDrug {
        id: row.prescribed_drug_id,
        prescription_id: row.prescription_id,
        drug_id: row.drug_id,
        quantity: row.quantity,
        created_at: row.drug_created_at,
        updated_at: row.drug_updated_at,
    }
}

/// Starts the aggregate of a first-encounter row: header and fill from the
/// row, the row's line item as the only one so far. Fails exactly when the
/// row names a fill but misses its fields.
fn start_aggregate(row: &PrescriptionRow) -> (res: Result<Prescription, AggregationError>)
    ensures
        res is Ok <==> row_wf(*row),
        res matches Ok(p) ==> p@ == row_aggregate(*row),
{
    let fill: Option<PrescriptionFill> = match row.fill_id {
        Some(fill_id) => {
            let pharmacist_id = match row.fill_pharmacist_id {
                Some(p) => p,
                None => {
                    return Err(AggregationError::MissingFillData);
                },
            };
            let created_at = match row.fill_created_at {
                Some(c) => c,
                None => {
                    return Err(AggregationError::MissingFillData);
                },
            };
            let updated_at = match row.fill_updated_at {
                Some(u) => u,
                None => {
                    return Err(AggregationError::MissingFillData);
                },
            };
            Some(
                PrescriptionFill {
                    id: fill_id,
                    prescription_id: row.prescription_id,
                    pharmacist_id,
                    created_at,
                    updated_at,
                },
            )
        },
        None => None,
    };
    let mut drugs: Vec<PrescribedDrug> = Vec::new();
    drugs.push(build_row_drug(row));
    let aggregate = Prescription {
        id: row.prescription_id,
        doctor: row.doctor.clone(),
        patient: row.patient.clone(),
        prescribed_drugs: drugs,
        prescription_type: row.prescription_type,
        fill,
        start_date: row.start_date,
        end_date: row.end_date,
        created_at: row.created_at,
        updated_at: row.updated_at,
    };
    proof {
        assert(aggregate@.prescribed_drugs =~= seq![row_drug(*row)]);
    }
    Ok(aggregate)
}

/// Folds the flat joined rows into prescription aggregates: one aggregate
/// per distinct prescription id in first-encounter order, each with one line
/// item per row and the fill of its first row. An index by id gives the
/// lookup. Fails exactly when a first-encounter row names a fill but misses
/// its fields.
#[verifier::rlimit(100)]
pub fn aggregate_prescriptions(rows: &Vec<PrescriptionRow>) -> (res: Result<
    Vec<Prescription>,
    AggregationError,
>)
    ensures
        res is Ok <==> rows_fill_consistent(rows@),
        res matches Ok(v) ==> prescription_views(v@) == aggregate_rows_spec(rows@),
{
    let ghost s = rows@;
    let mut acc: Vec<Prescription> = Vec::new();
    let mut index: HashMap<u128, usize> = HashMap::new();
    proof {
        assert(s.take(0) =~= Seq::<PrescriptionRow>::empty());
        assert(encounter_ids(s.take(0)) =~= Seq::<Id>::empty());
        assert(aggregate_rows_spec(s.take(0)) =~= Seq::<PrescriptionModel>::empty());
        assert(prescription_views(acc@) =~= Seq::<PrescriptionModel>::empty());
    }
    let mut i: usize = 0;
    while i < rows.len()
        invariant
            s == rows@,
            i <= s.len(),
            forall|k: int| 0 <= k < i && first_occurrence(s, k) ==> row_wf(#[trigger] s[k]),
            prescription_views(acc@) == aggregate_rows_spec(s.take(i as int)),
            acc@.len() == encounter_ids(s.take(i as int)).len(),
            forall|j: int|
                0 <= j < acc@.len() ==> (#[trigger] acc@[j]).id == encounter_ids(
                    s.take(i as int),
                )[j],
            forall|j: int|
                0 <= j < acc@.len() ==> index@.contains_key((#[trigger] acc@[j]).id.0)
                    && index@[acc@[j].id.0] == j,
            forall|k: u128| #[trigger]
                index@.contains_key(k) ==> 0 <= index@[k] < acc@.len() && acc@[
                    index@[k] as int
                ].id.0 == k,
        decreases s.len() - i,
    {
        let ghost prefix = s.take(i as int);
        let ghost row_id = s[i as int].prescription_id;
        let found: Option<usize> = match index.get(&rows[i].prescription_id.0) {
            Some(pos) => Some(*pos),
            None => None,
        };
        match found {
            Some(pos) => {
                proof {
                    assert(index@.contains_key(row_id.0));
                    assert(acc@[pos as int].id == row_id);
                    assert(encounter_ids(prefix)[pos as int] == row_id);
                    lemma_aggregate_step_found(s, i as int, pos as int);
                    lemma_encounter_contains(prefix, row_id);
                    encounter_ids(prefix).lemma_index_contains(pos as int);
                    assert(encounter_ids(prefix).contains(row_id));
                    let w = choose|j: int|
                        0 <= j < prefix.len() && (#[trigger] prefix[j]).prescription_id == row_id;
                    assert(s[w].prescription_id == row_id);
                    assert(!first_occurrence(s, i as int));
                }
                let drug = PrescribedDrug {
                    id: rows[i].prescribed_drug_id,
                    prescription_id: rows[i].prescription_id,
                    drug_id: rows[i].drug_id,
                    quantity: rows[i].quantity,
                    created_at: rows[i].drug_created_at,
                    updated_at: rows[i].drug_updated_at,
                };
                let ghost old_acc = acc@;
                let elem = &mut acc[pos];
                elem.prescribed_drugs.push(drug);
                proof {
                    assert(drug == row_drug(s[i as int]));
                    assert(acc@ == old_acc.update(pos as int, acc@[pos as int]));
                    assert(acc@[pos as int]@ == push_drug(old_acc[pos as int]@, drug));
                    lemma_views_update(old_acc, pos as int, acc@[pos as int]);
                    assert(prescription_views(old_acc)[pos as int] == old_acc[pos as int]@);
                    assert(prescription_views(acc@) == aggregate_rows_spec(s.take(i + 1)));
                    assert forall|j: int| 0 <= j < acc@.len() implies (#[trigger] acc@[j]).id
                        == encounter_ids(s.take(i + 1))[j] by {
                        assert(acc@[j].id == old_acc[j].id);
                    }
                }
            },
            None => {
                proof {
                    assert(!index@.contains_key(row_id.0));
                    assert(!encounter_ids(prefix).contains(row_id)) by {
                        if encounter_ids(prefix).contains(row_id) {
                            let j = choose|j: int|
                                0 <= j < encounter_ids(prefix).len() && encounter_ids(prefix)[j]
                                    == row_id;
                            assert(acc@[j].id == row_id);
                            assert(index@.contains_key(acc@[j].id.0));
                        }
                    }
                    lemma_aggregate_step_new(s, i as int);
                }
                let aggregate = match start_aggregate(&rows[i]) {
                    Ok(p) => p,
                    Err(e) => {
                        proof {
                            assert(!row_wf(s[i as int]));
                        }
                        return Err(e);
                    },
                };
                let ghost aggregate_view = aggregate@;
                let ghost old_acc = acc@;
                proof {
                    lemma_views_push(old_acc, aggregate);
                }
                acc.push(aggregate);
                let pos = acc.len() - 1;
                index.insert(rows[i].prescription_id.0, pos);
                proof {
                    assert(row_wf(s[i as int]));
                    assert(aggregate_view == row_aggregate(s[i as int]));
                    assert(acc@ == old_acc.push(aggregate));
                    assert(prescription_views(acc@) == aggregate_rows_spec(s.take(i + 1)));
                }
            },
        }
        i += 1;
    }
    proof {
        assert(s.take(s.len() as int) =~= s);
        assert(prescription_views(acc@) == aggregate_rows_spec(s));
    }
    Ok(acc)
}

} // verus!
