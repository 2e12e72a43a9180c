use cw721_gov::errors::ContractError;
use cw721_gov::metadata::Metadata;
use cw721_gov::mint::{
    mint_funded, query_is_on_reveal, u64_to_decimal, uluna_total, unrevealed_token_uri,
    CoinValue, MintGate,
};
use cw721_gov::msgs::{AddExtensionMsg, FreeMintMsg, MintMsg};

fn gate(cap: u64) -> MintGate {
    MintGate::new(
        "creator".to_string(),
        "ipfs://base/".to_string(),
        cap,
    )
}

#[test]
fn use_metadata_extension() {
    let mut g = gate(0);
    let token_id = "Enterprise";
    let mint_msg = MintMsg {
        token_num: token_id.to_string(),
        owner: "john".to_string(),
        token_uri: Some("https://starships.example.com/Starship/Enterprise.json".into()),
        extension: Some(Metadata {
            description: Some("Spaceship with Warp Drive".into()),
            name: Some("Starship USS Enterprise".to_string()),
            ..Metadata::default()
        }),
    };
    g.mint(
        "creator",
        MintMsg {
            token_num: mint_msg.token_num.clone(),
            owner: mint_msg.owner.clone(),
            token_uri: mint_msg.token_uri.clone(),
            extension: mint_msg.extension.clone(),
        },
    )
    .unwrap();
    let rec = &g.tokens[0];
    assert_eq!(rec.token_uri, mint_msg.token_uri);
    assert_eq!(rec.extension, mint_msg.extension);
}

#[test]
fn free_mint_assigns_sequential_id_and_balance() {
    let mut g = gate(1);
    let id = g
        .free_mint(
            "creator",
            FreeMintMsg {
                owner: "john".to_string(),
                extension: None,
            },
        )
        .unwrap();
    assert_eq!(id, "3001");
    assert_eq!(g.query_get_balance("john").balance, 1);
    let rec = &g.tokens[0];
    assert_eq!(rec.token_uri.as_deref(), Some("ipfs://base/3001.json"));

    // the cap is 1: a second free mint fails, whoever would receive it
    let r = g.free_mint(
        "creator",
        FreeMintMsg {
            owner: "jane".to_string(),
            extension: None,
        },
    );
    assert_eq!(r.err().unwrap(), ContractError::FreeLimitExceeded);
}

#[test]
fn free_mint_requires_the_minter() {
    let mut g = gate(5);
    let r = g.free_mint(
        "mallory",
        FreeMintMsg {
            owner: "mallory".to_string(),
            extension: None,
        },
    );
    assert_eq!(r.err().unwrap(), ContractError::NotMinter);
}

#[test]
fn mint_rejects_taken_id() {
    let mut g = gate(0);
    g.mint(
        "creator",
        MintMsg {
            token_num: "7".to_string(),
            owner: "john".to_string(),
            token_uri: None,
            extension: None,
        },
    )
    .unwrap();
    let r = g.mint(
        "creator",
        MintMsg {
            token_num: "7".to_string(),
            owner: "jane".to_string(),
            token_uri: None,
            extension: None,
        },
    );
    assert_eq!(r.err().unwrap(), ContractError::Claimed);
}

#[test]
fn add_extension_reserves_and_respects_claims() {
    let mut g = gate(0);
    // reserving a fresh id stores the placeholder record
    g.add_extension(
        "creator",
        AddExtensionMsg {
            token_id: "42".to_string(),
            extension: None,
        },
    )
    .unwrap();
    assert_eq!(g.tokens[0].owner, "not_yet_set");
    // replacing a reservation is allowed
    g.add_extension(
        "creator",
        AddExtensionMsg {
            token_id: "42".to_string(),
            extension: Some(Metadata {
                name: Some("again".to_string()),
                ..Metadata::default()
            }),
        },
    )
    .unwrap();
    // a finished mint is protected
    g.mint(
        "creator",
        MintMsg {
            token_num: "43".to_string(),
            owner: "john".to_string(),
            token_uri: None,
            extension: None,
        },
    )
    .unwrap();
    let r = g.add_extension(
        "creator",
        AddExtensionMsg {
            token_id: "43".to_string(),
            extension: None,
        },
    );
    assert_eq!(r.err().unwrap(), ContractError::Claimed);
}

#[test]
fn extension_query_reads_back_what_was_stored() {
    let mut g = gate(0);
    let meta = Metadata {
        description: Some("desc".to_string()),
        ..Metadata::default()
    };
    g.mint(
        "creator",
        MintMsg {
            token_num: "1".to_string(),
            owner: "john".to_string(),
            token_uri: None,
            extension: Some(meta.clone()),
        },
    )
    .unwrap();
    let resp = g.query_get_extension("1").unwrap();
    assert_eq!(resp.extension, Some(meta));
    let r = g.query_get_extension("2");
    assert_eq!(r.err().unwrap(), ContractError::CannotGetExtension);
}

#[test]
fn token_uri_concatenates_base_id_and_suffix() {
    let g = gate(0);
    let resp = g.query_get_token_uri("17");
    assert_eq!(resp.token_uri, "ipfs://base/17.json");
    assert_eq!(g.query_minter().minter, "creator");
    assert!(query_is_on_reveal().is_on_reveal);
    assert_eq!(unrevealed_token_uri().token_uri, "NOT_YET_REVEALED");
}

#[test]
fn decimal_rendering_is_exact() {
    assert_eq!(u64_to_decimal(0), "0");
    assert_eq!(u64_to_decimal(7), "7");
    assert_eq!(u64_to_decimal(3001), "3001");
    assert_eq!(u64_to_decimal(18_446_744_073_709_551_615), "18446744073709551615");
}

#[test]
fn mint_price_ladder() {
    // early supply
    assert!(mint_funded(0, 130_000, "a"));
    assert!(mint_funded(999, 125_000, "b"));
    assert!(!mint_funded(0, 125_000, "a"));
    assert!(!mint_funded(0, 120_000, "b"));
    // late supply
    assert!(mint_funded(1000, 150_000, "a"));
    assert!(mint_funded(1000, 145_000, "b"));
    assert!(mint_funded(1000, 140_000, "c"));
    assert!(mint_funded(1000, 135_000, "d"));
    assert!(mint_funded(1000, 13_000, "e"));
    assert!(!mint_funded(1000, 130_000, "a"));
    assert!(!mint_funded(1000, 145_000, "c"));
}

#[test]
fn uluna_total_sums_only_the_payment_denomination() {
    let funds = vec![
        CoinValue {
            denom: "uluna".to_string(),
            amount: 100_000,
        },
        CoinValue {
            denom: "uusd".to_string(),
            amount: 999,
        },
        CoinValue {
            denom: "uluna".to_string(),
            amount: 30_000,
        },
    ];
    assert_eq!(uluna_total(&funds), 130_000);
}
