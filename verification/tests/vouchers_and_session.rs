use save_voucher::clock::{task_time_from_parsed, TaskTimeError};
use save_voucher::json::JsonValue;
use save_voucher::request::{
    collection_headers, collection_request, fallback_collection_request, plan_collection_lookup,
    plan_save_voucher, save_voucher_headers, save_voucher_request, InvalidHeaderValue,
};
use save_voucher::session::{
    collection_step, mode_from_choice, save_step, CollectionStep, Mode, SaveStep,
};
use save_voucher::voucher::{find_voucher, unlisted_entries, VoucherLookup};

fn to_json(v: &serde_json::Value) -> JsonValue {
    match v {
        serde_json::Value::Null => JsonValue::Null,
        serde_json::Value::Bool(b) => JsonValue::Bool(*b),
        serde_json::Value::Number(n) => JsonValue::Number(n.as_i64()),
        serde_json::Value::String(s) => JsonValue::Text(s.clone()),
        serde_json::Value::Array(items) => JsonValue::Array(items.iter().map(to_json).collect()),
        serde_json::Value::Object(map) => {
            JsonValue::Object(map.iter().map(|(k, v)| (k.clone(), to_json(v))).collect())
        }
    }
}

fn lookup(text: &str, ask_fallback: bool) -> VoucherLookup {
    let value: serde_json::Value = serde_json::from_str(text).unwrap();
    find_voucher(&to_json(&value), ask_fallback)
}

fn found(l: VoucherLookup) -> (String, String) {
    match l {
        VoucherLookup::Found { promotion_id, signature } => (promotion_id, signature),
        other => panic!("expected a voucher, got {:?}", other),
    }
}

#[test]
fn voucher_found_in_first_entry() {
    let r = lookup(
        r#"{"data":[{"vouchers":[{"voucher":{"voucher_identifier":{"promotion_id":856793882394624,"signature":"8e8a4c"}}}]}]}"#,
        true,
    );
    assert_eq!(found(r), ("856793882394624".to_string(), "8e8a4c".to_string()));
}

#[test]
fn voucher_without_identifier_is_passed_over() {
    let r = lookup(
        r#"{"data":[{"vouchers":[{"voucher":{}},{"voucher":{"voucher_identifier":{"promotion_id":-3,"signature":"s2"}}}]}]}"#,
        true,
    );
    assert_eq!(found(r), ("-3".to_string(), "s2".to_string()));
}

#[test]
fn missing_fields_fall_back_to_defaults() {
    let r = lookup(
        r#"{"data":[{"vouchers":[{"voucher":{"voucher_identifier":{"promotion_id":1.5,"signature":7}}}]}]}"#,
        true,
    );
    assert_eq!(found(r), ("0".to_string(), "".to_string()));
    let r = lookup(
        r#"{"data":[{"vouchers":[{"voucher":{"voucher_identifier":{"promotion_id":18446744073709551615}}}]}]}"#,
        true,
    );
    assert_eq!(found(r), ("0".to_string(), "".to_string()));
}

#[test]
fn entry_without_voucher_list_asks_for_fallback() {
    let text = r#"{"data":[{"other":1},{"vouchers":[{"voucher":{"voucher_identifier":{"promotion_id":9,"signature":"x"}}}]}]}"#;
    assert!(matches!(lookup(text, true), VoucherLookup::Fallback));
    assert_eq!(found(lookup(text, false)), ("9".to_string(), "x".to_string()));
}

#[test]
fn later_entry_is_searched_when_earlier_is_empty() {
    let text = r#"{"data":[{"vouchers":[]},{"vouchers":[{"voucher":{"voucher_identifier":{"promotion_id":5,"signature":"y"}}}]}]}"#;
    assert_eq!(found(lookup(text, true)), ("5".to_string(), "y".to_string()));
}

#[test]
fn no_data_and_no_voucher() {
    assert!(matches!(lookup(r#"{"error":90309999}"#, true), VoucherLookup::NoData));
    assert!(matches!(lookup(r#"{"data":{}}"#, true), VoucherLookup::NoData));
    assert!(matches!(lookup(r#"[1,2]"#, true), VoucherLookup::NoData));
    assert!(matches!(lookup(r#"{"data":[]}"#, true), VoucherLookup::NoVoucher));
    assert!(matches!(
        lookup(r#"{"data":[{"vouchers":[{"voucher":[]}]}]}"#, false),
        VoucherLookup::NoVoucher
    ));
}

#[test]
fn menu_answers() {
    assert_eq!(mode_from_choice("1\n"), Some(Mode::Normal));
    assert_eq!(mode_from_choice("  2 "), Some(Mode::Collection));
    assert_eq!(mode_from_choice("3\n"), None);
    assert_eq!(mode_from_choice("12"), None);
    assert_eq!(mode_from_choice(""), None);
}

#[test]
fn save_retries_twice_then_gives_up() {
    assert_eq!(save_step(0, 418), SaveStep::Retry { attempts: 1 });
    assert_eq!(save_step(1, 418), SaveStep::Retry { attempts: 2 });
    assert_eq!(save_step(2, 418), SaveStep::GiveUp);
    assert_eq!(save_step(1, 200), SaveStep::Saved);
    assert_eq!(save_step(0, 500), SaveStep::Failed);
    assert_eq!(save_step(u32::MAX, 418), SaveStep::GiveUp);
}

#[test]
fn save_sends_at_most_three_requests() {
    let mut attempts = 0;
    let mut sent = 0;
    loop {
        sent += 1;
        match save_step(attempts, 418) {
            SaveStep::Retry { attempts: next } => attempts = next,
            _ => break,
        }
    }
    assert_eq!(sent, 3);
}

#[test]
fn collection_steps() {
    assert_eq!(collection_step(200), CollectionStep::Read);
    assert_eq!(collection_step(418), CollectionStep::Retry);
    assert_eq!(collection_step(403), CollectionStep::Stop);
}

#[test]
fn save_request_body() {
    let r = save_voucher_request(856793882394624, "8e8a");
    assert_eq!(r.voucher_promotionid, 856793882394624);
    assert_eq!(r.signature, "8e8a");
    assert_eq!(r.security_device_fingerprint, "");
    assert_eq!(r.signature_source, "0");
}

#[test]
fn collection_request_bodies() {
    let r = collection_request("12923214728");
    assert_eq!(r.voucher_collection_request_list.len(), 1);
    let q = &r.voucher_collection_request_list[0];
    assert_eq!(q.collection_id, "12923214728");
    assert_eq!(
        (q.component_type, q.component_id, q.limit, q.microsite_id, q.offset, q.number_of_vouchers_per_row),
        (2, 1712077200, 100, 63749, 0, 2)
    );
    let r = fallback_collection_request("77");
    let q = &r.voucher_collection_request_list[0];
    assert_eq!(q.collection_id, "77");
    assert_eq!(
        (q.component_type, q.component_id, q.limit, q.microsite_id, q.offset, q.number_of_vouchers_per_row),
        (1, 1708068524282, 100, 62902, 0, 1)
    );
}

#[test]
fn header_values_checked_like_reqwest() {
    let values = ["abc", "", "a b\tc", "line\n", "bell\u{7}", "del\u{7f}", "ünï", "x\r"];
    for v in values.iter() {
        let ok = reqwest::header::HeaderValue::from_str(v).is_ok();
        assert_eq!(save_voucher_headers("tok", v).is_ok(), ok, "value {:?}", v);
        assert_eq!(collection_headers(v, "c=1").is_ok(), ok, "value {:?}", v);
    }
}

#[test]
fn save_headers_in_order() {
    let h = save_voucher_headers("TOK", "csrftoken=TOK; a=b").unwrap();
    assert_eq!(h.len(), 15);
    assert_eq!(h[0], ("User-Agent".to_string(), "Android app Shopee appver=29313 app_type=1".to_string()));
    assert_eq!(h[12], ("x-csrftoken".to_string(), "TOK".to_string()));
    assert_eq!(h[14], ("cookie".to_string(), "csrftoken=TOK; a=b".to_string()));
    let h = collection_headers("TOK", "c").unwrap();
    assert_eq!(h.len(), 10);
    assert_eq!(h[4], ("x-shopee-language".to_string(), "id".to_string()));
    assert_eq!(h[8], ("x-csrftoken".to_string(), "TOK".to_string()));
}

#[test]
fn plans_read_token_from_cookie() {
    let p = plan_save_voucher(42, "sig", "a=1; csrftoken=T0k; b=2").unwrap();
    assert_eq!(p.csrftoken, "T0k");
    assert_eq!(p.body.voucher_promotionid, 42);
    assert_eq!(p.headers[12].1, "T0k");
    let c = plan_collection_lookup("99", "csrftoken=Q;").unwrap();
    assert_eq!(c.csrftoken, "Q");
    assert_eq!(c.body.voucher_collection_request_list[0].collection_id, "99");
    assert_eq!(plan_save_voucher(1, "s", "csrftoken=T;\n").unwrap_err(), InvalidHeaderValue);
}

#[test]
fn parsed_parts_become_task_time() {
    let t = task_time_from_parsed(Some((2023, 1, 1, 60, 5))).unwrap();
    assert_eq!(t.time.seconds_from_midnight(), 60);
    assert_eq!(t.time.nanosecond(), 5);
    assert_eq!(task_time_from_parsed(None).unwrap_err(), TaskTimeError::Unparsable);
    assert_eq!(task_time_from_parsed(Some((2023, 1, 1, 90_000, 0))).unwrap_err(), TaskTimeError::Unparsable);
}

fn unlisted(text: &str) -> usize {
    let value: serde_json::Value = serde_json::from_str(text).unwrap();
    unlisted_entries(&to_json(&value))
}

#[test]
fn unlisted_entries_before_the_voucher() {
    let text = r#"{"data":[{"a":1},{"vouchers":[]},{"b":2},{"vouchers":[{"voucher":{"voucher_identifier":{"promotion_id":9}}}]},{"c":3}]}"#;
    assert_eq!(unlisted(text), 2);
    assert_eq!(unlisted(r#"{"data":[{"a":1},{"b":2},{"vouchers":5}]}"#), 3);
    assert_eq!(unlisted(r#"{"data":"none"}"#), 0);
    assert_eq!(unlisted(r#"{"data":[]}"#), 0);
}
