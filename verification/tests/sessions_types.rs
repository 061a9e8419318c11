use lianad_payjoin::sessions::types::{PayjoinInfo, PayjoinStatus};

const ALL: [PayjoinStatus; 5] = [
    PayjoinStatus::Pending,
    PayjoinStatus::WaitingReceiver,
    PayjoinStatus::Signing,
    PayjoinStatus::Completed,
    PayjoinStatus::Failed,
];

#[test]
fn status_codes_are_read_back() {
    for (code, status) in ALL.iter().enumerate() {
        assert_eq!(status.code(), code as i32);
        assert_eq!(PayjoinStatus::from(code as i32), *status);
    }
}

#[test]
fn info_is_copied_whole() {
    let info = PayjoinInfo {
        status: Some(PayjoinStatus::Signing),
        bip21: "bitcoin:tb1q?pj=https://example.com".to_string(),
    };
    let copy = info.clone();
    assert_eq!(copy.status, Some(PayjoinStatus::Signing));
    assert_eq!(copy.bip21, info.bip21);
}
