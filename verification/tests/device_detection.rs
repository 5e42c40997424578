use librazer::device::{
    detect, enumerate, is_device_interface, model_number_from_sku, razer_product_ids, send_step,
    DetectError, EnumerateError, HidDeviceInfo, MatchedBy, Reply, SendError, SendStep, MAX_SEND_ATTEMPTS,
    RAZER_VID,
};

fn hid(vendor_id: u16, product_id: u16) -> HidDeviceInfo {
    HidDeviceInfo { vendor_id, product_id, interface_number: 0, usage_page: 0, usage: 0 }
}

#[test]
fn detect_by_model_number() {
    let d = detect("RZ09-0528A", &[0x02c6]).unwrap();
    assert_eq!(d.matched_by, MatchedBy::ModelNumber);
    assert_eq!(d.index, 10);
    assert_eq!(d.descriptor.name, "Razer Blade 16” (2025)");
    assert_eq!(d.descriptor.pid, 0x02c6);
}

#[test]
fn model_number_wins_over_product_id() {
    // the product id belongs to another model; the model number decides
    let d = detect("RZ09-0421", &[0x02c6]).unwrap();
    assert_eq!(d.matched_by, MatchedBy::ModelNumber);
    assert_eq!(d.descriptor.model_number_prefix, "RZ09-0421");
}

#[test]
fn unknown_model_falls_back_to_product_id() {
    let d = detect("RZ09-9999", &[0x1234, 0x02b7]).unwrap();
    assert_eq!(d.matched_by, MatchedBy::ProductId);
    assert_eq!(d.descriptor.model_number_prefix, "RZ09-0510");
    assert_eq!(d.index, 8);
}

#[test]
fn unknown_model_and_product_is_unsupported() {
    assert_eq!(detect("RZ09-9999", &[0x1234]).err(), Some(DetectError::Unsupported));
    assert_eq!(detect("", &[]).err(), Some(DetectError::Unsupported));
}

#[test]
fn every_listed_model_is_detected_as_itself() {
    let table = librazer::descriptor::supported();
    for (i, d) in table.iter().enumerate() {
        let model = format!("{}Z", d.model_number_prefix);
        let found = detect(&model, &[]).unwrap();
        assert_eq!(found.index, i);
        assert_eq!(found.matched_by, MatchedBy::ModelNumber);
    }
}

#[test]
fn sku_is_clipped_to_model_number_length() {
    assert_eq!(model_number_from_sku("RZ09-0528AEEEEEEE"), "RZ09-0528A");
    assert_eq!(model_number_from_sku("RZ09"), "RZ09");
    assert_eq!(model_number_from_sku(""), "");
    assert_eq!(model_number_from_sku("ÄÖÜäöüßéèêx"), "ÄÖÜäöüßéèê");
}

#[test]
fn product_ids_are_distinct_razer_ones() {
    let devices = [hid(RAZER_VID, 0x02c6), hid(0x046d, 0x02c7), hid(RAZER_VID, 0x02c6), hid(RAZER_VID, 0x0001)];
    let mut pids = razer_product_ids(&devices);
    pids.sort();
    assert_eq!(pids, vec![0x0001, 0x02c6]);
    assert!(razer_product_ids(&[]).is_empty());
}

#[test]
fn enumerate_outcomes() {
    let devices = [hid(RAZER_VID, 0x02c6), hid(RAZER_VID, 0x02c6)];
    let (pids, model) = enumerate(&devices, Ok("RZ09-0528A".to_string())).unwrap();
    assert_eq!(pids, vec![0x02c6]);
    assert_eq!(model, "RZ09-0528A");

    match enumerate(&devices, Ok("20XW0055GE".to_string())) {
        Err(EnumerateError::NotRazerLaptop(m)) => assert_eq!(m, "20XW0055GE"),
        other => panic!("unexpected {:?}", other),
    }
    match enumerate(&devices, Err("no key".to_string())) {
        Err(EnumerateError::ModelUnreadable(e)) => assert_eq!(e, "no key"),
        other => panic!("unexpected {:?}", other),
    }
    match enumerate(&[hid(0x046d, 1)], Ok("RZ09-0528A".to_string())) {
        Err(EnumerateError::NoRazerDevices) => {}
        other => panic!("unexpected {:?}", other),
    }
}

#[test]
fn device_interface_filter() {
    assert!(is_device_interface(&hid(RAZER_VID, 0x02c6), 0x02c6));
    assert!(!is_device_interface(&hid(RAZER_VID, 0x02c7), 0x02c6));
    assert!(!is_device_interface(&hid(0x046d, 0x02c6), 0x02c6));
}

fn received(matches: Option<bool>) -> Reply {
    Reply::Received { buffer_len: 91, received_len: 91, matches_request: matches }
}

#[test]
fn exchange_delivers_matching_response() {
    assert_eq!(send_step(0, received(Some(true))), SendStep::Deliver);
    assert_eq!(send_step(4, received(Some(true))), SendStep::Deliver);
}

#[test]
fn exchange_retries_until_the_limit() {
    for attempt in 0..MAX_SEND_ATTEMPTS - 1 {
        assert_eq!(send_step(attempt, received(Some(false))), SendStep::Retry);
    }
    assert_eq!(
        send_step(MAX_SEND_ATTEMPTS - 1, received(Some(false))),
        SendStep::Fail(SendError::NoMatchingResponse { attempts: 5 })
    );
}

#[test]
fn exchange_errors() {
    assert_eq!(send_step(0, Reply::SendFailed), SendStep::Fail(SendError::SendFailed));
    assert_eq!(send_step(1, Reply::ReadFailed), SendStep::Fail(SendError::ReadFailed));
    assert_eq!(
        send_step(0, Reply::Received { buffer_len: 91, received_len: 3, matches_request: Some(true) }),
        SendStep::Fail(SendError::WrongResponseSize { expected: 91 })
    );
    assert_eq!(send_step(2, received(None)), SendStep::Fail(SendError::Malformed));
}

#[test]
fn every_listed_model_passes_enumeration() {
    let devices = [hid(RAZER_VID, 0x02c6)];
    for d in librazer::descriptor::supported().iter() {
        let model = model_number_from_sku(&format!("{}B-EXTRA", d.model_number_prefix));
        assert!(enumerate(&devices, Ok(model)).is_ok());
    }
}
