use clinic::ids::Id;
use clinic::prescriptions::aggregation::{aggregate_prescriptions, PrescriptionRow};
use clinic::prescriptions::models::{PrescriptionDoctor, PrescriptionPatient, PrescriptionType};

fn row(prescription: u128, line_item: u128, drug: u128) -> PrescriptionRow {
    PrescriptionRow {
        prescription_id: Id(prescription),
        doctor: PrescriptionDoctor {
            id: Id(1),
            name: "John Doctor".into(),
            pesel_number: "96021807250".into(),
            pwz_number: "3123456".into(),
        },
        patient: PrescriptionPatient {
            id: Id(2),
            name: "John Patient".into(),
            pesel_number: "96021817257".into(),
        },
        prescription_type: PrescriptionType::Regular,
        start_date: 1_000,
        end_date: 2_000,
        created_at: 500,
        updated_at: 500,
        prescribed_drug_id: Id(line_item),
        drug_id: Id(drug),
        quantity: 1,
        drug_created_at: 600,
        drug_updated_at: 600,
        fill_id: None,
        fill_pharmacist_id: None,
        fill_created_at: None,
        fill_updated_at: None,
    }
}

fn row_with_fill(prescription: u128, line_item: u128, drug: u128, fill: u128) -> PrescriptionRow {
    let mut r = row(prescription, line_item, drug);
    r.fill_id = Some(Id(fill));
    r.fill_pharmacist_id = Some(Id(90));
    r.fill_created_at = Some(700);
    r.fill_updated_at = Some(700);
    r
}

#[test]
fn groups_rows_into_one_aggregate_per_prescription() {
    // rows of the two prescriptions interleave; encounter order decides
    let rows = vec![row(10, 1, 100), row(20, 2, 200), row(10, 3, 300), row(20, 4, 400), row(
        10, 5, 500,
    )];

    let aggregates = aggregate_prescriptions(&rows).unwrap();

    assert_eq!(aggregates.len(), 2);
    assert_eq!(aggregates[0].id, Id(10));
    assert_eq!(aggregates[1].id, Id(20));
    assert_eq!(aggregates[0].prescribed_drugs.len(), 3);
    assert_eq!(aggregates[1].prescribed_drugs.len(), 2);
    let drugs_of_first: Vec<u128> = aggregates[0]
        .prescribed_drugs
        .iter()
        .map(|d| d.drug_id.0)
        .collect();
    assert_eq!(drugs_of_first, vec![100, 300, 500]);
    assert!(aggregates[0].fill.is_none());
    assert!(aggregates[1].fill.is_none());
    assert_eq!(aggregates[0].doctor.name, "John Doctor");
    assert_eq!(aggregates[0].patient.name, "John Patient");
    assert_eq!(aggregates[0].start_date, 1_000);
    assert_eq!(aggregates[0].end_date, 2_000);
}

#[test]
fn attaches_the_fill_of_the_first_row() {
    let rows = vec![
        row_with_fill(10, 1, 100, 77),
        row_with_fill(10, 2, 200, 77),
        row(20, 3, 300),
    ];

    let aggregates = aggregate_prescriptions(&rows).unwrap();

    assert_eq!(aggregates.len(), 2);
    let fill = aggregates[0].fill.unwrap();
    assert_eq!(fill.id, Id(77));
    assert_eq!(fill.prescription_id, Id(10));
    assert_eq!(fill.pharmacist_id, Id(90));
    assert!(aggregates[1].fill.is_none());
}

#[test]
fn empty_row_set_folds_to_no_aggregates() {
    let aggregates = aggregate_prescriptions(&vec![]).unwrap();
    assert!(aggregates.is_empty());
}

#[test]
fn fails_loudly_on_a_fill_with_missing_fields() {
    let mut bad = row(10, 1, 100);
    bad.fill_id = Some(Id(77));
    // pharmacist, created and updated stay null: a contract violation of the join
    assert!(aggregate_prescriptions(&vec![bad]).is_err());
}

#[test]
fn ignores_fill_fields_of_later_rows() {
    // the second row of prescription 10 is malformed, but only first-encounter
    // rows feed the fill
    let mut later = row(10, 2, 200);
    later.fill_id = Some(Id(88));

    let rows = vec![row_with_fill(10, 1, 100, 77), later];
    let aggregates = aggregate_prescriptions(&rows).unwrap();

    assert_eq!(aggregates.len(), 1);
    assert_eq!(aggregates[0].fill.unwrap().id, Id(77));
    assert_eq!(aggregates[0].prescribed_drugs.len(), 2);
}

#[test]
fn interleaving_rows_of_one_prescription_changes_nothing_but_line_item_order() {
    let contiguous = vec![row(10, 1, 100), row(10, 2, 200), row(20, 3, 300)];
    let interleaved = vec![row(10, 1, 100), row(20, 3, 300), row(10, 2, 200)];

    let a = aggregate_prescriptions(&contiguous).unwrap();
    let b = aggregate_prescriptions(&interleaved).unwrap();

    assert_eq!(a.len(), b.len());
    for (x, y) in a.iter().zip(b.iter()) {
        assert_eq!(x.id, y.id);
        assert_eq!(x.fill, y.fill);
        let mut dx: Vec<u128> = x.prescribed_drugs.iter().map(|d| d.id.0).collect();
        let mut dy: Vec<u128> = y.prescribed_drugs.iter().map(|d| d.id.0).collect();
        dx.sort();
        dy.sort();
        assert_eq!(dx, dy);
    }
}
