use cw721_gov::errors::ContractError;
use cw721_gov::withdraw::WithdrawalGate;

fn gate() -> WithdrawalGate {
    WithdrawalGate::new(
        "team".to_string(),
        "pro".to_string(),
        "treas".to_string(),
    )
}

#[test]
fn withdraw_needs_unanimous_sign_off() {
    let mut g = gate();
    // nobody signed yet
    let r = g.withdraw(1_000);
    assert_eq!(r.err().unwrap(), ContractError::NotAllSigned);

    g.sign("team", 11).unwrap();
    g.sign("pro", 12).unwrap();
    let r = g.withdraw(1_000);
    assert_eq!(r.err().unwrap(), ContractError::NotAllSigned);

    g.sign("treas", 13).unwrap();
    let split = g.withdraw(1_000).unwrap();
    assert_eq!(split.team, 300);
    assert_eq!(split.pro, 140);
    assert_eq!(split.treas, 560);

    // success spent the sign-offs: an immediate retry is refused
    let r = g.withdraw(1_000);
    assert_eq!(r.err().unwrap(), ContractError::NotAllSigned);
    assert!(!g.team_signed && !g.pro_signed && !g.treas_signed);
}

#[test]
fn rounding_remainder_stays_behind() {
    let mut g = gate();
    g.sign("team", 1).unwrap();
    g.sign("pro", 2).unwrap();
    g.sign("treas", 3).unwrap();
    let split = g.withdraw(99).unwrap();
    assert_eq!(split.team, 29);
    assert_eq!(split.pro, 13);
    assert_eq!(split.treas, 55);
    assert!(split.team + split.pro + split.treas <= 99);
}

#[test]
fn only_designated_parties_may_sign() {
    let mut g = gate();
    let r = g.sign("mallory", 7);
    assert_eq!(r.err().unwrap(), ContractError::NotSigner);
    let receipt = g.sign("team", 7).unwrap();
    assert_eq!(receipt.signer, "team");
    assert_eq!(receipt.time_nanos, 7);
    assert!(g.team_signed);
    assert!(!g.pro_signed);
}
