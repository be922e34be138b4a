use cj_subscriptions::cj::{CommissionItem, CommissionRecord};
use cj_subscriptions::jobs::verify_reports::{
    classify, commission_matches, find_commission, plan_verification, verify_reports_with_cj,
    Verdict, Verification, VerifyPlan, GRACE_PERIOD_SECONDS,
};
use cj_subscriptions::models::status_history::{Status, StatusHistoryEntry, UpdateStatus};
use cj_subscriptions::models::subscriptions::{
    HashedUid, PartialSubscription, Subscription, SubscriptionModel,
};
use cj_subscriptions::timestamp::Timestamp;
use time::OffsetDateTime;
use uuid::Uuid;

fn random_text() -> String {
    Uuid::new_v4().simple().to_string()
}

fn current_time() -> Timestamp {
    let reading = OffsetDateTime::now_utc();
    Timestamp::new(reading.unix_timestamp(), reading.nanosecond()).unwrap()
}

fn hours_earlier(t: Timestamp, hours: i64) -> Timestamp {
    Timestamp::new(t.unix_timestamp() - hours * 3600, t.nanosecond()).unwrap()
}

// A subscription whose ledger is still empty, so that the first transition
// is the first entry of its history.
fn fake_sub() -> Subscription {
    let mut sub = fresh_sub();
    sub.set_status(None);
    sub.set_status_t(None);
    sub.set_status_history(None);
    sub
}

fn fresh_sub() -> Subscription {
    Subscription::new(PartialSubscription {
        id: Uuid::new_v4().as_u128(),
        flow_id: random_text(),
        subscription_id: random_text(),
        report_timestamp: current_time(),
        subscription_created: hours_earlier(current_time(), 35),
        fxa_uid: HashedUid::from_hash(random_text()),
        quantity: 1,
        plan_id: random_text(),
        plan_currency: "usd".to_string(),
        plan_amount: 1999,
        country: Some("us".to_string()),
        coupons: Some(random_text()),
        aic_id: Some(Uuid::new_v4().as_u128()),
        aic_expires: Some(current_time()),
        cj_event_value: Some(random_text()),
    })
}

fn reported_sub(id: u128, reported_at: Timestamp) -> Subscription {
    let mut sub = Subscription::new_at(
        PartialSubscription {
            id,
            flow_id: format!("flow-{}", id),
            subscription_id: format!("sub-{}", id),
            report_timestamp: reported_at,
            subscription_created: reported_at,
            fxa_uid: HashedUid::from_hash("hash".to_string()),
            quantity: 1,
            plan_id: "plan_monthly".to_string(),
            plan_currency: "usd".to_string(),
            plan_amount: 999,
            country: None,
            coupons: None,
            aic_id: None,
            aic_expires: None,
            cj_event_value: None,
        },
        reported_at,
    );
    sub.update_status_at(Status::Reported, reported_at);
    sub
}

fn record(order_id: &str, sale_amount: i64, skus: &[&str]) -> CommissionRecord {
    CommissionRecord {
        order_id: order_id.to_string(),
        sale_amount,
        items: skus.iter().map(|sku| CommissionItem { sku: sku.to_string() }).collect(),
    }
}

fn order_id(id: u128) -> String {
    Uuid::from_u128(id).to_string()
}

#[test]
fn test_correct_and_incorrectly_received_subscriptions_are_handled_correctly() {
    // SETUP
    let mut store = SubscriptionModel::new();

    // Sub 1 - Reported, expect to have been recieved by CJ
    let mut sub_1 = fake_sub();
    sub_1.update_status(Status::Reported);
    // Sub 2 - Reported 48 hours ago, CJ has the wrong amount
    let mut sub_2 = fake_sub();
    sub_2.update_status(Status::Reported);
    sub_2.set_status_t(Some(hours_earlier(sub_2.get_status_t().unwrap(), 48)));
    // Sub 3 - Reported 48 hours ago, CJ has the wrong sku
    let mut sub_3 = fake_sub();
    sub_3.update_status(Status::Reported);
    sub_3.set_status_t(Some(hours_earlier(sub_3.get_status_t().unwrap(), 48)));
    // Sub 4 - Reported 48 hours ago, CJ has the wrong id
    let mut sub_4 = fake_sub();
    sub_4.update_status(Status::Reported);
    sub_4.set_status_t(Some(hours_earlier(sub_4.get_status_t().unwrap(), 48)));
    // Sub 5 - Reported < 36 hours ago, CJ has the wrong id
    let mut sub_5 = fake_sub();
    sub_5.update_status(Status::Reported);
    sub_5.set_status_t(Some(hours_earlier(sub_5.get_status_t().unwrap(), 35)));

    for sub in [&sub_1, &sub_2, &sub_3, &sub_4, &sub_5] {
        store.create_from_sub(sub).expect("Failed to create sub.");
    }
    let records = vec![
        record(
            &Uuid::from_u128(sub_1.id).to_string(),
            sub_1.plan_amount as i64,
            &[&sub_1.plan_id],
        ),
        record(&Uuid::from_u128(sub_2.id).to_string(), -999, &[&sub_2.plan_id]),
        record(
            &Uuid::from_u128(sub_3.id).to_string(),
            sub_3.plan_amount as i64,
            &["WRONG SKU"],
        ),
        record("WRONGID", sub_4.plan_amount as i64, &[&sub_4.plan_id]),
        record("WRONGID", sub_5.plan_amount as i64, &[&sub_5.plan_id]),
    ];

    // GO
    let now = current_time();
    assert!(matches!(plan_verification(&store), VerifyPlan::Query { .. }));
    verify_reports_with_cj(&mut store, &records, now, GRACE_PERIOD_SECONDS);

    // ASSERT
    let sub_1_updated = store.fetch_one_by_id(&sub_1.id).expect("Could not get sub");
    let sub_2_updated = store.fetch_one_by_id(&sub_2.id).expect("Could not get sub");
    let sub_3_updated = store.fetch_one_by_id(&sub_3.id).expect("Could not get sub");
    let sub_4_updated = store.fetch_one_by_id(&sub_4.id).expect("Could not get sub");
    let sub_5_updated = store.fetch_one_by_id(&sub_5.id).expect("Could not get sub");

    assert_eq!(sub_1_updated.get_status().unwrap(), Status::CJReceived);
    let updated_history = sub_1_updated.get_status_history().unwrap();
    assert_eq!(updated_history.entries.len(), 2);
    assert_eq!(
        updated_history.entries[1],
        StatusHistoryEntry {
            status: Status::CJReceived,
            t: now
        }
    );
    for not_found_sub in [&sub_2_updated, &sub_3_updated, &sub_4_updated] {
        println!("Testing sub: {}", not_found_sub.id);
        assert_eq!(not_found_sub.get_status().unwrap(), Status::CJNotReceived);
        let updated_history = not_found_sub.get_status_history().unwrap();
        assert_eq!(updated_history.entries.len(), 2);
        assert_eq!(
            updated_history.entries[1],
            StatusHistoryEntry {
                status: Status::CJNotReceived,
                t: now
            }
        );
    }
    // Leave unchanged as we'll try again to see if the report comes through
    assert_eq!(sub_5_updated.get_status().unwrap(), Status::Reported);
    let updated_history = sub_5_updated.get_status_history().unwrap();
    assert_eq!(updated_history.entries.len(), 1);
}

#[test]
fn test_the_job_reports_one_verdict_for_each_reported_subscription() {
    let now = Timestamp::new(1_650_000_000, 0).unwrap();
    let long_ago = hours_earlier(now, 48);
    let recently = hours_earlier(now, 1);
    let mut store = SubscriptionModel::new();
    store.create_from_sub(&reported_sub(1, long_ago)).unwrap();
    store.create_from_sub(&reported_sub(2, long_ago)).unwrap();
    store.create_from_sub(&reported_sub(3, recently)).unwrap();
    let mut unreported = reported_sub(4, long_ago);
    unreported.update_status_at(Status::NotReported, long_ago);
    store.create_from_sub(&unreported).unwrap();
    let records = vec![record(&order_id(2), 999, &["plan_monthly"])];
    let report = verify_reports_with_cj(&mut store, &records, now, GRACE_PERIOD_SECONDS);
    assert_eq!(
        report,
        vec![
            Verification { id: 1, verdict: Verdict::NotReceived },
            Verification { id: 2, verdict: Verdict::Received },
            Verification { id: 3, verdict: Verdict::Pending },
        ]
    );
    assert_eq!(store.fetch_one_by_id(&1).unwrap().get_status(), Some(Status::CJNotReceived));
    assert_eq!(store.fetch_one_by_id(&2).unwrap().get_status(), Some(Status::CJReceived));
    let three = store.fetch_one_by_id(&3).unwrap();
    assert_eq!(three.get_status(), Some(Status::Reported));
    assert_eq!(three.get_status_t(), Some(recently));
    assert_eq!(three.get_status_history().unwrap().entries.len(), 2);
    let four = store.fetch_one_by_id(&4).unwrap();
    assert_eq!(four.get_status(), Some(Status::NotReported));
    assert_eq!(four.get_status_history().unwrap().entries.len(), 3);
    assert_eq!(store.len(), 4);
}

#[test]
fn test_a_second_pass_leaves_verified_subscriptions_alone() {
    let now = Timestamp::new(1_650_000_000, 0).unwrap();
    let mut store = SubscriptionModel::new();
    store.create_from_sub(&reported_sub(1, hours_earlier(now, 48))).unwrap();
    store.create_from_sub(&reported_sub(2, hours_earlier(now, 1))).unwrap();
    let records = vec![];
    verify_reports_with_cj(&mut store, &records, now, GRACE_PERIOD_SECONDS);
    let later = Timestamp::new(1_650_000_000 + 36 * 3600, 0).unwrap();
    let report = verify_reports_with_cj(&mut store, &records, later, GRACE_PERIOD_SECONDS);
    assert_eq!(report, vec![Verification { id: 2, verdict: Verdict::NotReceived }]);
    let one = store.fetch_one_by_id(&1).unwrap();
    assert_eq!(one.get_status(), Some(Status::CJNotReceived));
    assert_eq!(one.get_status_t(), Some(now));
    assert_eq!(one.get_status_history().unwrap().entries.len(), 3);
    let two = store.fetch_one_by_id(&2).unwrap();
    assert_eq!(two.get_status(), Some(Status::CJNotReceived));
    assert_eq!(two.get_status_t(), Some(later));
    assert_eq!(two.get_status_history().unwrap().entries.len(), 3);
}

#[test]
fn test_correct_order_id_with_wrong_amount_is_not_received() {
    let now = Timestamp::new(1_650_000_000, 0).unwrap();
    let mut store = SubscriptionModel::new();
    store.create_from_sub(&reported_sub(1, hours_earlier(now, 48))).unwrap();
    let records = vec![record(&order_id(1), 998, &["plan_monthly"])];
    let report = verify_reports_with_cj(&mut store, &records, now, GRACE_PERIOD_SECONDS);
    assert_eq!(report, vec![Verification { id: 1, verdict: Verdict::NotReceived }]);
    assert_eq!(store.fetch_one_by_id(&1).unwrap().get_status(), Some(Status::CJNotReceived));
}

#[test]
fn test_a_match_needs_order_id_amount_and_sku_together() {
    let id = order_id(1);
    let plan = "plan_monthly".to_string();
    assert!(commission_matches(&record(&id, 999, &["plan_monthly"]), &id, 999, &plan));
    assert!(commission_matches(
        &record(&id, 999, &["other", "plan_monthly", "more"]),
        &id,
        999,
        &plan
    ));
    assert!(!commission_matches(&record("WRONGID", 999, &["plan_monthly"]), &id, 999, &plan));
    assert!(!commission_matches(&record(&id, -999, &["plan_monthly"]), &id, 999, &plan));
    assert!(!commission_matches(&record(&id, 999, &["WRONG SKU"]), &id, 999, &plan));
    assert!(!commission_matches(&record(&id, 999, &[]), &id, 999, &plan));
    assert!(!commission_matches(&record("WRONGID", 1, &["WRONG SKU"]), &id, 999, &plan));
    let wrapped = 999 + (1i64 << 32);
    assert!(!commission_matches(&record(&id, wrapped, &["plan_monthly"]), &id, 999, &plan));
}

#[test]
fn test_the_parts_of_a_match_may_not_come_from_different_records() {
    let sub = reported_sub(1, Timestamp::new(1_650_000_000, 0).unwrap());
    let records = vec![
        record(&order_id(1), 1, &["plan_monthly"]),
        record(&order_id(1), 999, &["WRONG SKU"]),
        record("WRONGID", 999, &["plan_monthly"]),
    ];
    assert!(!find_commission(&records, &sub));
    let mut with_match = records;
    with_match.push(record(&order_id(1), 999, &["plan_monthly"]));
    assert!(find_commission(&with_match, &sub));
    assert!(!find_commission(&vec![], &sub));
}

#[test]
fn test_the_order_id_is_the_hyphenated_lower_case_id() {
    let id = 0xa1a2a3a4b1b2c1c2d1d2d3d4d5d6d7d8u128;
    let sub = reported_sub(id, Timestamp::new(1_650_000_000, 0).unwrap());
    let hit = vec![record("a1a2a3a4-b1b2-c1c2-d1d2-d3d4d5d6d7d8", 999, &["plan_monthly"])];
    assert!(find_commission(&hit, &sub));
    for other in [
        "A1A2A3A4-B1B2-C1C2-D1D2-D3D4D5D6D7D8",
        "a1a2a3a4b1b2c1c2d1d2d3d4d5d6d7d8",
        "d8d7d6d5-d4d3-d2d1-c2c1-b2b1a4a3a2a1",
        "214950689570406133070997805444549072856",
        "",
    ] {
        assert!(!find_commission(&vec![record(other, 999, &["plan_monthly"])], &sub));
    }
    let small = reported_sub(0x1f, Timestamp::new(1_650_000_000, 0).unwrap());
    let padded = vec![record("00000000-0000-0000-0000-00000000001f", 999, &["plan_monthly"])];
    assert!(find_commission(&padded, &small));
    assert!(!find_commission(&vec![record("1f", 999, &["plan_monthly"])], &small));
}

#[test]
fn test_grace_period_is_36_hours() {
    assert_eq!(GRACE_PERIOD_SECONDS, 36 * 60 * 60);
}

#[test]
fn test_grace_threshold_boundary() {
    let now = Timestamp::new(1_650_000_000, 500).unwrap();
    let exactly = Timestamp::new(1_650_000_000 - 129_600, 500).unwrap();
    let one_below = Timestamp::new(1_650_000_000 - 129_600, 501).unwrap();
    let one_above = Timestamp::new(1_650_000_000 - 129_600, 499).unwrap();
    assert_eq!(classify(false, exactly, now, GRACE_PERIOD_SECONDS), Verdict::NotReceived);
    assert_eq!(classify(false, one_below, now, GRACE_PERIOD_SECONDS), Verdict::Pending);
    assert_eq!(classify(false, one_above, now, GRACE_PERIOD_SECONDS), Verdict::NotReceived);
    let mut store = SubscriptionModel::new();
    store.create_from_sub(&reported_sub(1, exactly)).unwrap();
    store.create_from_sub(&reported_sub(2, one_below)).unwrap();
    let report = verify_reports_with_cj(&mut store, &vec![], now, GRACE_PERIOD_SECONDS);
    assert_eq!(
        report,
        vec![
            Verification { id: 1, verdict: Verdict::NotReceived },
            Verification { id: 2, verdict: Verdict::Pending },
        ]
    );
    assert_eq!(store.fetch_one_by_id(&1).unwrap().get_status(), Some(Status::CJNotReceived));
    let two = store.fetch_one_by_id(&2).unwrap();
    assert_eq!(two.get_status(), Some(Status::Reported));
    assert_eq!(two.get_status_history().unwrap().entries.len(), 2);
}

#[test]
fn test_a_match_is_received_whatever_its_age() {
    let now = Timestamp::new(1_650_000_000, 0).unwrap();
    assert_eq!(classify(true, now, now, GRACE_PERIOD_SECONDS), Verdict::Received);
    let long_ago = hours_earlier(now, 1000);
    let not_yet = hours_earlier(now, -5);
    assert_eq!(classify(true, long_ago, now, GRACE_PERIOD_SECONDS), Verdict::Received);
    assert_eq!(classify(true, not_yet, now, GRACE_PERIOD_SECONDS), Verdict::Received);
}

#[test]
fn test_the_grace_period_can_be_tuned() {
    let now = Timestamp::new(1_650_000_000, 0).unwrap();
    let reported_at = Timestamp::new(1_650_000_000 - 60, 0).unwrap();
    assert_eq!(classify(false, reported_at, now, 60), Verdict::NotReceived);
    assert_eq!(classify(false, reported_at, now, 61), Verdict::Pending);
    assert_eq!(classify(false, reported_at, now, 0), Verdict::NotReceived);
    assert_eq!(classify(false, reported_at, now, u64::MAX), Verdict::Pending);
    assert_eq!(classify(false, now, reported_at, 0), Verdict::Pending);
}

#[test]
fn test_classify_does_not_overflow_at_the_ends_of_time() {
    let first = Timestamp::new(i64::MIN, 0).unwrap();
    let last = Timestamp::new(i64::MAX, 999_999_999).unwrap();
    assert_eq!(classify(false, first, last, u64::MAX), Verdict::NotReceived);
    assert_eq!(classify(false, last, first, 0), Verdict::Pending);
}

#[test]
fn test_nothing_to_verify_without_reported_subscriptions() {
    let mut store = SubscriptionModel::new();
    assert_eq!(plan_verification(&store), VerifyPlan::NothingToVerify);
    let mut sub = reported_sub(1, Timestamp::new(1_650_000_000, 0).unwrap());
    sub.update_status_at(Status::CJReceived, Timestamp::new(1_650_000_500, 0).unwrap());
    store.create_from_sub(&sub).unwrap();
    assert_eq!(plan_verification(&store), VerifyPlan::NothingToVerify);
    let report = verify_reports_with_cj(
        &mut store,
        &vec![record(&order_id(1), 999, &["plan_monthly"])],
        Timestamp::new(1_660_000_000, 0).unwrap(),
        GRACE_PERIOD_SECONDS,
    );
    assert!(report.is_empty());
    let stored = store.fetch_one_by_id(&1).unwrap();
    assert_eq!(stored.get_status(), Some(Status::CJReceived));
    assert_eq!(stored.get_status_history().unwrap().entries.len(), 3);
}

#[test]
fn test_the_query_window_spans_the_reported_subscriptions() {
    let mut store = SubscriptionModel::new();
    let first = Timestamp::new(1_650_000_000, 7).unwrap();
    let second = Timestamp::new(1_650_100_000, 0).unwrap();
    let third = Timestamp::new(1_650_200_000, 9).unwrap();
    store.create_from_sub(&reported_sub(1, second)).unwrap();
    store.create_from_sub(&reported_sub(2, third)).unwrap();
    store.create_from_sub(&reported_sub(3, first)).unwrap();
    assert_eq!(plan_verification(&store), VerifyPlan::Query { min: first, max: third });
    store
        .update_sub_status_at(&2, Status::CJReceived, Timestamp::new(1_650_300_000, 0).unwrap())
        .unwrap();
    assert_eq!(plan_verification(&store), VerifyPlan::Query { min: first, max: second });
}
