use cw721_gov::expiry::{BlockTime, Duration, Expiration, ExpirationOrder};
use cw721_gov::ids::{decode_id, encode_id};
use cw721_gov::metadata::{token_royalty_info, Metadata};
use cw721_gov::threshold::{
    evaluate, votes_needed, Percentage, PolicyOutcome, Threshold,
};
use cw721_gov::votes::VoteTally;

#[test]
fn id_keys_round_trip_and_preserve_order() {
    for id in [0u64, 1, 255, 256, 3001, u64::MAX] {
        let key = encode_id(id);
        assert_eq!(key.len(), 8);
        assert_eq!(decode_id(&key), id);
    }
    // byte order of the keys matches numeric order of the ids
    let a = encode_id(2);
    let b = encode_id(10);
    assert!(a < b);
}

#[test]
fn votes_needed_rounds_up() {
    let half = Percentage::percent(50);
    assert_eq!(votes_needed(10, half), 5);
    assert_eq!(votes_needed(11, half), 6);
    assert_eq!(votes_needed(0, half), 0);
    let third = Percentage { atomics: 333_333_333_333_333_333 };
    assert_eq!(votes_needed(3, third), 1);
}

#[test]
fn absolute_count_evaluation() {
    let th = Threshold::AbsoluteCount { weight: 5 };
    let t = VoteTally { yes: 2, no: 0, abstain: 0, veto: 0 };
    assert_eq!(evaluate(&t, 10, &th), PolicyOutcome::Undecided);
    let t = VoteTally { yes: 5, no: 0, abstain: 0, veto: 0 };
    assert_eq!(evaluate(&t, 10, &th), PolicyOutcome::Passed);
    // yes 2, everything else voted no: 2 + 0 remaining < 5
    let t = VoteTally { yes: 2, no: 8, abstain: 0, veto: 0 };
    assert_eq!(evaluate(&t, 10, &th), PolicyOutcome::Rejected);
}

#[test]
fn quorum_evaluation() {
    let th = Threshold::ThresholdQuorum {
        threshold: Percentage::percent(50),
        quorum: Percentage::percent(40),
    };
    // quorum not reached yet
    let t = VoteTally { yes: 3, no: 0, abstain: 0, veto: 0 };
    assert_eq!(evaluate(&t, 10, &th), PolicyOutcome::Undecided);
    // quorum met, half of the opinions say yes
    let t = VoteTally { yes: 2, no: 1, abstain: 1, veto: 1 };
    assert_eq!(evaluate(&t, 10, &th), PolicyOutcome::Passed);
    // quorum met, yes can no longer reach half of the opinions
    let t = VoteTally { yes: 0, no: 9, abstain: 0, veto: 0 };
    assert_eq!(evaluate(&t, 10, &th), PolicyOutcome::Rejected);
}

#[test]
fn expirations_compare_within_one_unit_only() {
    let h1 = Expiration::AtHeight(5);
    let h2 = Expiration::AtHeight(9);
    let t1 = Expiration::AtTime(100);
    assert_eq!(h1.compare(&h2), ExpirationOrder::Before);
    assert_eq!(h2.compare(&h1), ExpirationOrder::After);
    assert_eq!(h1.compare(&h1), ExpirationOrder::Same);
    assert_eq!(h1.compare(&t1), ExpirationOrder::Incomparable);
    assert_eq!(Expiration::Never.compare(&h1), ExpirationOrder::After);
    assert_eq!(h1.compare(&Expiration::Never), ExpirationOrder::Before);

    let block = BlockTime { height: 5, time_nanos: 100 };
    assert!(h1.is_expired(&block));
    assert!(!h2.is_expired(&block));
    assert!(t1.is_expired(&block));
    assert!(!Expiration::Never.is_expired(&block));
}

#[test]
fn durations_reach_their_end_points() {
    let block = BlockTime { height: 10, time_nanos: 1_000_000_000 };
    assert_eq!(
        Duration::Height(5).after(&block),
        Expiration::AtHeight(15)
    );
    assert_eq!(
        Duration::Time(2).after(&block),
        Expiration::AtTime(3_000_000_000)
    );
}

#[test]
fn royalty_share_is_rounded_down() {
    let ext = Some(Metadata {
        royalty_percentage: Some(10),
        royalty_payment_address: Some("artist".to_string()),
        ..Metadata::default()
    });
    let info = token_royalty_info(&ext, 105);
    assert_eq!(info.royalty_amount, 10);
    assert_eq!(info.address, "artist");

    // no metadata, no royalty
    let info = token_royalty_info(&None, 1_000);
    assert_eq!(info.royalty_amount, 0);
    assert_eq!(info.address, "");
}
