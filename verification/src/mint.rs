//! The mint gate: the minter's allowlist check, the global free-mint cap,
//! per-wallet balance counters, deterministic token-id assignment, and the
//! token records themselves.
use vstd::prelude::*;
use vstd::string::StringExecFns;

use crate::errors::ContractError;
use crate::keyorder::{compare_keys, KeyCmp};
use crate::metadata::Extension;
use crate::msgs::{
    AddExtensionMsg, FreeMintMsg, GetBalanceResponse, GetExtensionResponse, GetTokenUriResponse,
    IsOnRevealResponse, MinterResponse, MintMsg,
};

verus! {

/// Free-mint token ids start here: the first freely minted token gets
/// this number, the next one more, and so on.
pub const FREE_MINT_ID_BASE: u64 = 3001;

/// The decimal digits of a number, most significant first.
pub open spec fn spec_decimal(n: int) -> Seq<char>
    decreases n,
{
    if n < 0 {
        Seq::empty()
    } else if n < 10 {
        seq![spec_digit(n)]
    } else {
        spec_decimal(n / 10).push(spec_digit(n % 10))
    }
}

/// The character of one decimal digit.
pub open spec fn spec_digit(d: int) -> char {
    if d == 0 {
        '0'
    } else if d == 1 {
        '1'
    } else if d == 2 {
        '2'
    } else if d == 3 {
        '3'
    } else if d == 4 {
        '4'
    } else if d == 5 {
        '5'
    } else if d == 6 {
        '6'
    } else if d == 7 {
        '7'
    } else if d == 8 {
        '8'
    } else {
        '9'
    }
}

/// One decimal digit as a string slice.
fn digit_str(d: u64) -> (r: &'static str)
    requires
        d < 10,
    ensures
        r@ == seq![spec_digit(d as int)],
{
    proof {
        reveal_strlit("0");
        reveal_strlit("1");
        reveal_strlit("2");
        reveal_strlit("3");
        reveal_strlit("4");
        reveal_strlit("5");
        reveal_strlit("6");
        reveal_strlit("7");
        reveal_strlit("8");
        reveal_strlit("9");
    }
    let r = if d == 0 {
        "0"
    } else if d == 1 {
        "1"
    } else if d == 2 {
        "2"
    } else if d == 3 {
        "3"
    } else if d == 4 {
        "4"
    } else if d == 5 {
        "5"
    } else if d == 6 {
        "6"
    } else if d == 7 {
        "7"
    } else if d == 8 {
        "8"
    } else {
        "9"
    };
    proof {
        assert(r@ =~= seq![spec_digit(d as int)]);
    }
    r
}

/// Render a number in decimal.
pub fn u64_to_decimal(n: u64) -> (r: String)
    ensures
        r@ == spec_decimal(n as int),
    decreases n,
{
    if n < 10 {
        digit_str(n).to_owned()
    } else {
        let mut s = u64_to_decimal(n / 10);
        s.append(digit_str(n % 10));
        proof {
            assert(s@ =~= spec_decimal(n as int / 10).push(spec_digit(n as int % 10)));
        }
        s
    }
}

/// One minted (or reserved) token.
#[derive(Clone, Debug)]
pub struct TokenRecord {
    /// Unique id, a decimal string for free mints.
    pub token_id: String,
    /// The owner, or the reservation placeholder while only an extension
    /// has been attached.
    pub owner: String,
    /// Where the token's metadata document lives.
    pub token_uri: Option<String>,
    /// The token's custom payload.
    pub extension: Extension,
}

/// One wallet's count of free-minted tokens.
#[derive(Clone, Debug)]
pub struct WalletBalance {
    pub addr: String,
    pub balance: u64,
}

/// The owner name that marks a reserved, not yet minted token slot, as
/// opposed to a fully minted one.
pub open spec fn spec_placeholder_owner() -> Seq<char> {
    "not_yet_set"@
}

/// The mint gate's whole state.
pub struct MintGate {
    /// The only caller allowed to mint.
    pub minter: String,
    /// Token URIs are this base followed by the id and a suffix.
    pub base_uri: String,
    /// How many free mints may ever happen.
    pub free_mint_cap: u64,
    /// How many free mints have happened. Never decreases.
    pub freemint_count: u64,
    /// All token records, in mint order.
    pub tokens: Vec<TokenRecord>,
    /// Per-wallet free-mint counters, in first-mint order.
    pub wallet_balance: Vec<WalletBalance>,
}

/// No two token records share an id.
pub open spec fn tokens_unique(s: Seq<TokenRecord>) -> bool {
    forall|i: int, j: int|
        0 <= i < j < s.len() ==> (#[trigger] s[i].token_id@) != (#[trigger] s[j].token_id@)
}

/// No two balance rows share a wallet.
pub open spec fn wallets_unique(s: Seq<WalletBalance>) -> bool {
    forall|i: int, j: int|
        0 <= i < j < s.len() ==> (#[trigger] s[i].addr@) != (#[trigger] s[j].addr@)
}

impl MintGate {
    /// Good standing: unique ids and wallets, a counter within its
    /// cap, and a cap small enough that no id can outgrow the counter.
    pub open spec fn wf(&self) -> bool {
        &&& tokens_unique(self.tokens@)
        &&& wallets_unique(self.wallet_balance@)
        &&& self.freemint_count <= self.free_mint_cap
        &&& self.free_mint_cap <= u64::MAX - FREE_MINT_ID_BASE
        &&& forall|i: int|
            0 <= i < self.wallet_balance@.len() ==> (#[trigger] self.wallet_balance@[i]).balance
                <= self.freemint_count
    }

    /// Whether a record exists under this id.
    pub open spec fn spec_has_token(&self, token_id: Seq<char>) -> bool {
        exists|i: int|
            0 <= i < self.tokens@.len() && (#[trigger] self.tokens@[i].token_id@) == token_id
    }

    /// Whether a wallet has a balance row.
    pub open spec fn spec_has_wallet(&self, addr: Seq<char>) -> bool {
        exists|i: int|
            0 <= i < self.wallet_balance@.len() && (#[trigger] self.wallet_balance@[i].addr@)
                == addr
    }

    /// A fresh gate with no tokens issued.
    pub fn new(minter: String, base_uri: String, free_mint_cap: u64) -> (r: MintGate)
        requires
            free_mint_cap <= u64::MAX - FREE_MINT_ID_BASE,
        ensures
            r.wf(),
            r.minter == minter,
            r.base_uri == base_uri,
            r.free_mint_cap == free_mint_cap,
            r.freemint_count == 0,
            r.tokens@.len() == 0,
            r.wallet_balance@.len() == 0,
    {
        MintGate {
            minter,
            base_uri,
            free_mint_cap,
            freemint_count: 0,
            tokens: Vec::new(),
            wallet_balance: Vec::new(),
        }
    }

    /// The index of the record under this id, if any.
    fn token_find(&self, token_id: &str) -> (r: Option<usize>)
        ensures
            match r {
                Some(i) => 0 <= i < self.tokens@.len() && self.tokens@[i as int].token_id@
                    == token_id@,
                None => forall|i: int|
                    0 <= i < self.tokens@.len() ==> (#[trigger] self.tokens@[i].token_id@)
                        != token_id@,
            },
            r is Some <==> self.spec_has_token(token_id@),
    {
        let n = self.tokens.len();
        let mut i: usize = 0;
        while i < n
            invariant
                0 <= i <= n,
                n == self.tokens@.len(),
                forall|j: int|
                    0 <= j < i ==> (#[trigger] self.tokens@[j].token_id@) != token_id@,
            decreases n - i,
        {
            if matches!(
                compare_keys(self.tokens[i].token_id.as_str(), token_id),
                KeyCmp::Same
            ) {
                return Some(i);
            }
            i = i + 1;
        }
        None
    }

    /// The index of a wallet's balance row, if any.
    fn wallet_find(&self, addr: &str) -> (r: Option<usize>)
        ensures
            match r {
                Some(i) => 0 <= i < self.wallet_balance@.len() && self.wallet_balance@[i as int].addr@
                    == addr@,
                None => forall|i: int|
                    0 <= i < self.wallet_balance@.len() ==> (#[trigger] self.wallet_balance@[i].addr@)
                        != addr@,
            },
            r is Some <==> self.spec_has_wallet(addr@),
    {
        let n = self.wallet_balance.len();
        let mut i: usize = 0;
        while i < n
            invariant
                0 <= i <= n,
                n == self.wallet_balance@.len(),
                forall|j: int|
                    0 <= j < i ==> (#[trigger] self.wallet_balance@[j].addr@) != addr@,
            decreases n - i,
        {
            if matches!(
                compare_keys(self.wallet_balance[i].addr.as_str(), addr),
                KeyCmp::Same
            ) {
                return Some(i);
            }
            i = i + 1;
        }
        None
    }

    /// Mint one specific token: only the minter may, and only under an id
    /// nobody holds yet.
    pub fn mint(&mut self, caller: &str, msg: MintMsg) -> (r: Result<(), ContractError>)
        requires
            old(self).wf(),
        ensures
            final(self).wf(),
            match r {
                Ok(_) => {
                    &&& caller@ == old(self).minter@
                    &&& !old(self).spec_has_token(msg.token_num@)
                    &&& final(self).tokens@.len() == old(self).tokens@.len() + 1
                    &&& ({
                        let rec = final(self).tokens@.last();
                        &&& final(self).tokens@ == old(self).tokens@.push(rec)
                        &&& rec.token_id@ == msg.token_num@
                        &&& rec.owner@ == msg.owner@
                        &&& rec.token_uri == msg.token_uri
                        &&& rec.extension == msg.extension
                    })
                    &&& final(self).wallet_balance@ == old(self).wallet_balance@
                    &&& final(self).freemint_count == old(self).freemint_count
                    &&& final(self).minter == old(self).minter
                    &&& final(self).base_uri == old(self).base_uri
                    &&& final(self).free_mint_cap == old(self).free_mint_cap
                },
                Err(e) => {
                    &&& *final(self) == *old(self)
                    &&& if caller@ != old(self).minter@ {
                        e == ContractError::NotMinter
                    } else {
                        e == ContractError::Claimed && old(self).spec_has_token(msg.token_num@)
                    }
                },
            },
    {
        if !matches!(compare_keys(caller, self.minter.as_str()), KeyCmp::Same) {
            return Err(ContractError::NotMinter);
        }
        if self.token_find(msg.token_num.as_str()).is_some() {
            return Err(ContractError::Claimed);
        }
        let rec = TokenRecord {
            token_id: msg.token_num,
            owner: msg.owner,
            token_uri: msg.token_uri,
            extension: msg.extension,
        };
        self.tokens.push(rec);
        Ok(())
    }

    /// Free mint: the minter airdrops the next sequential token to a
    /// wallet. The id is the fixed base plus the issued count, so ids are
    /// stable and collision-free by construction; a defensive `Claimed`
    /// check stands as a second line of defense. The global counter and
    /// the recipient's balance both grow by one.
    pub fn free_mint(&mut self, caller: &str, msg: FreeMintMsg) -> (r: Result<
        String,
        ContractError,
    >)
        requires
            old(self).wf(),
        ensures
            final(self).wf(),
            match r {
                Ok(token_id) => {
                    &&& caller@ == old(self).minter@
                    &&& old(self).freemint_count < old(self).free_mint_cap
                    &&& token_id@ == spec_decimal(FREE_MINT_ID_BASE + old(self).freemint_count)
                    &&& !old(self).spec_has_token(token_id@)
                    &&& final(self).freemint_count == old(self).freemint_count + 1
                    &&& final(self).tokens@.len() == old(self).tokens@.len() + 1
                    &&& ({
                        let rec = final(self).tokens@.last();
                        &&& final(self).tokens@ == old(self).tokens@.push(rec)
                        &&& rec.token_id@ == token_id@
                        &&& rec.owner@ == msg.owner@
                        &&& rec.token_uri matches Some(uri) && uri@ == old(self).base_uri@
                            + token_id@ + ".json"@
                        &&& rec.extension == msg.extension
                    })
                    &&& ({
                        let wb = final(self).wallet_balance@;
                        let owb = old(self).wallet_balance@;
                        exists|i: int|
                            0 <= i < wb.len() && (#[trigger] wb[i].addr@) == msg.owner@ && (if old(
                                self,
                            ).spec_has_wallet(msg.owner@) {
                                wb.len() == owb.len() && i < owb.len() && wb[i].balance == owb[i].balance
                                    + 1 && (forall|j: int|
                                    0 <= j < owb.len() && j != i ==> wb[j] == #[trigger] owb[j])
                            } else {
                                wb == owb.push(wb[i]) && wb[i].balance == 1
                            })
                    })
                    &&& final(self).minter == old(self).minter
                    &&& final(self).base_uri == old(self).base_uri
                    &&& final(self).free_mint_cap == old(self).free_mint_cap
                },
                Err(e) => {
                    &&& *final(self) == *old(self)
                    &&& if caller@ != old(self).minter@ {
                        e == ContractError::NotMinter
                    } else if old(self).freemint_count >= old(self).free_mint_cap {
                        e == ContractError::FreeLimitExceeded
                    } else {
                        e == ContractError::Claimed && old(self).spec_has_token(
                            spec_decimal(FREE_MINT_ID_BASE + old(self).freemint_count),
                        )
                    }
                },
            },
    {
        if !matches!(compare_keys(caller, self.minter.as_str()), KeyCmp::Same) {
            return Err(ContractError::NotMinter);
        }
        if self.freemint_count >= self.free_mint_cap {
            return Err(ContractError::FreeLimitExceeded);
        }
        let id_num = FREE_MINT_ID_BASE + self.freemint_count;
        let token_id = u64_to_decimal(id_num);
        if self.token_find(token_id.as_str()).is_some() {
            return Err(ContractError::Claimed);
        }
        let ghost pre_tokens = self.tokens@;
        let mut uri = self.base_uri.clone();
        uri.append(token_id.as_str());
        uri.append(".json");
        let rec = TokenRecord {
            token_id: token_id.clone(),
            owner: msg.owner.clone(),
            token_uri: Some(uri),
            extension: msg.extension,
        };
        self.tokens.push(rec);
        proof {
            assert forall|p: int, q: int| 0 <= p < q < self.tokens@.len() implies (
            #[trigger] self.tokens@[p].token_id@) != (#[trigger] self.tokens@[q].token_id@) by {
                if q < pre_tokens.len() {
                    assert(pre_tokens[p].token_id@ != pre_tokens[q].token_id@);
                } else {
                    assert(self.tokens@[q].token_id@ == token_id@);
                    assert(pre_tokens[p].token_id@ != token_id@);
                }
            }
        }
        match self.wallet_find(msg.owner.as_str()) {
            Some(i) => {
                let ghost owb = self.wallet_balance@;
                let old_balance = self.wallet_balance[i].balance;
                let row = WalletBalance {
                    addr: self.wallet_balance[i].addr.clone(),
                    balance: old_balance + 1,
                };
                self.wallet_balance[i] = row;
                proof {
                    let iv = i as int;
                    assert(self.wallet_balance@[iv].addr@ == msg.owner@);
                    assert(self.wallet_balance@[iv].balance == owb[iv].balance + 1);
                    assert(forall|j: int|
                        0 <= j < owb.len() && j != iv ==> self.wallet_balance@[j] == #[trigger] owb[j]);
                    assert forall|p: int, q: int| 0 <= p < q < self.wallet_balance@.len() implies (
                    #[trigger] self.wallet_balance@[p].addr@) != (
                    #[trigger] self.wallet_balance@[q].addr@) by {
                        assert(owb[p].addr@ != owb[q].addr@);
                    }
                }
            },
            None => {
                let ghost owb = self.wallet_balance@;
                self.wallet_balance.push(WalletBalance { addr: msg.owner, balance: 1 });
                proof {
                    let iv = owb.len() as int;
                    assert(self.wallet_balance@[iv].addr@ == msg.owner@);
                    assert(self.wallet_balance@[iv].balance == 1);
                    assert forall|p: int, q: int| 0 <= p < q < self.wallet_balance@.len() implies (
                    #[trigger] self.wallet_balance@[p].addr@) != (
                    #[trigger] self.wallet_balance@[q].addr@) by {
                        if q < owb.len() {
                            assert(owb[p].addr@ != owb[q].addr@);
                        } else {
                            assert(self.wallet_balance@[q].addr@ == msg.owner@);
                            assert(owb[p].addr@ != msg.owner@);
                        }
                    }
                }
            },
        }
        self.freemint_count = self.freemint_count + 1;
        Ok(token_id)
    }

    /// Attach or replace a token's extension payload under an id,
    /// reserving the slot with the placeholder owner. Only a slot already
    /// claimed by a finished mint — one whose owner is not the placeholder
    /// — is refused.
    pub fn add_extension(&mut self, caller: &str, msg: AddExtensionMsg) -> (r: Result<
        (),
        ContractError,
    >)
        requires
            old(self).wf(),
        ensures
            final(self).wf(),
            match r {
                Ok(_) => {
                    &&& caller@ == old(self).minter@
                    &&& exists|i: int|
                        0 <= i < final(self).tokens@.len() && ({
                            let rec = #[trigger] final(self).tokens@[i];
                            &&& rec.token_id@ == msg.token_id@
                            &&& rec.owner@ == spec_placeholder_owner()
                            &&& rec.token_uri matches Some(u) && u@ == spec_placeholder_owner()
                            &&& rec.extension == msg.extension
                        })
                    &&& final(self).wallet_balance@ == old(self).wallet_balance@
                    &&& final(self).freemint_count == old(self).freemint_count
                    &&& final(self).minter == old(self).minter
                    &&& final(self).base_uri == old(self).base_uri
                    &&& final(self).free_mint_cap == old(self).free_mint_cap
                },
                Err(e) => {
                    &&& *final(self) == *old(self)
                    &&& if caller@ != old(self).minter@ {
                        e == ContractError::NotMinter
                    } else {
                        &&& e == ContractError::Claimed
                        &&& exists|i: int|
                            0 <= i < old(self).tokens@.len() && (#[trigger] old(
                                self,
                            ).tokens@[i].token_id@) == msg.token_id@ && old(self).tokens@[i].owner@
                                != spec_placeholder_owner()
                    }
                },
            },
    {
        if !matches!(compare_keys(caller, self.minter.as_str()), KeyCmp::Same) {
            return Err(ContractError::NotMinter);
        }
        let rec = TokenRecord {
            token_id: msg.token_id,
            owner: String::from_str("not_yet_set"),
            token_uri: Some(String::from_str("not_yet_set")),
            extension: msg.extension,
        };
        match self.token_find(rec.token_id.as_str()) {
            Some(i) => {
                if matches!(
                    compare_keys(self.tokens[i].owner.as_str(), "not_yet_set"),
                    KeyCmp::Same
                ) {
                    let ghost pre = self.tokens@;
                    self.tokens[i] = rec;
                    proof {
                        let iv = i as int;
                        assert(self.tokens@[iv].token_id@ == msg.token_id@);
                        assert(self.tokens@[iv].owner@ == spec_placeholder_owner());
                        assert forall|p: int, q: int| 0 <= p < q < self.tokens@.len() implies (
                        #[trigger] self.tokens@[p].token_id@) != (
                        #[trigger] self.tokens@[q].token_id@) by {
                            assert(pre[p].token_id@ != pre[q].token_id@);
                            assert(self.tokens@[iv].token_id@ == pre[iv].token_id@);
                        }
                    }
                    Ok(())
                } else {
                    Err(ContractError::Claimed)
                }
            },
            None => {
                let ghost pre = self.tokens@;
                self.tokens.push(rec);
                proof {
                    let iv = pre.len() as int;
                    assert(self.tokens@[iv].token_id@ == msg.token_id@);
                    assert(self.tokens@[iv].owner@ == spec_placeholder_owner());
                    assert forall|p: int, q: int| 0 <= p < q < self.tokens@.len() implies (
                    #[trigger] self.tokens@[p].token_id@) != (
                    #[trigger] self.tokens@[q].token_id@) by {
                        if q < pre.len() {
                            assert(pre[p].token_id@ != pre[q].token_id@);
                        } else {
                            assert(self.tokens@[q].token_id@ == msg.token_id@);
                            assert(pre[p].token_id@ != msg.token_id@);
                        }
                    }
                }
                Ok(())
            },
        }
    }

    /// How many tokens a wallet has received from the free-mint gate.
    pub fn query_get_balance(&self, owner: &str) -> (r: GetBalanceResponse)
        requires
            wallets_unique(self.wallet_balance@),
        ensures
            self.spec_has_wallet(owner@) ==> exists|i: int|
                0 <= i < self.wallet_balance@.len() && (#[trigger] self.wallet_balance@[i].addr@)
                    == owner@ && self.wallet_balance@[i].balance == r.balance,
            !self.spec_has_wallet(owner@) ==> r.balance == 0,
    {
        match self.wallet_find(owner) {
            Some(i) => GetBalanceResponse { balance: self.wallet_balance[i].balance },
            None => GetBalanceResponse { balance: 0 },
        }
    }

    /// The extension payload stored under an id.
    pub fn query_get_extension(&self, token_id: &str) -> (r: Result<
        GetExtensionResponse,
        ContractError,
    >)
        ensures
            match r {
                Ok(resp) => exists|i: int|
                    0 <= i < self.tokens@.len() && (#[trigger] self.tokens@[i].token_id@)
                        == token_id@ && crate::metadata::extension_matches(
                        resp.extension,
                        self.tokens@[i].extension,
                    ),
                Err(e) => e == ContractError::CannotGetExtension && !self.spec_has_token(
                    token_id@,
                ),
            },
    {
        match self.token_find(token_id) {
            Some(i) => {
                let ext = crate::metadata::duplicate_extension(&self.tokens[i].extension);
                Ok(GetExtensionResponse { extension: ext })
            },
            None => Err(ContractError::CannotGetExtension),
        }
    }

    /// Who can mint these tokens.
    pub fn query_minter(&self) -> (r: MinterResponse)
        ensures
            r.minter@ == self.minter@,
    {
        MinterResponse { minter: self.minter.clone() }
    }

    /// A token's URI: the configured base, the id, and the document
    /// suffix.
    pub fn query_get_token_uri(&self, token_id: &str) -> (r: GetTokenUriResponse)
        ensures
            r.token_uri@ == self.base_uri@ + token_id@ + ".json"@,
    {
        let mut uri = self.base_uri.clone();
        uri.append(token_id);
        uri.append(".json");
        GetTokenUriResponse { token_uri: uri }
    }
}

/// The URI reported for a token while its art is hidden.
pub fn unrevealed_token_uri() -> (r: GetTokenUriResponse)
    ensures
        r.token_uri@ == "NOT_YET_REVEALED"@,
{
    GetTokenUriResponse { token_uri: String::from_str("NOT_YET_REVEALED") }
}

/// Whether token art is revealed: this collection reports its URIs as
/// revealed unconditionally.
pub fn query_is_on_reveal() -> (r: IsOnRevealResponse)
    ensures
        r.is_on_reveal,
{
    IsOnRevealResponse { is_on_reveal: true }
}

/// One coin of a named denomination, as attached to a call.
#[derive(Clone, Debug)]
pub struct CoinValue {
    pub denom: String,
    pub amount: u128,
}

/// The total attached in the payment denomination.
pub open spec fn spec_uluna_total(funds: Seq<CoinValue>) -> int
    decreases funds.len(),
{
    if funds.len() == 0 {
        0
    } else {
        spec_uluna_total(funds.drop_last()) + if funds.last().denom@ == "uluna"@ {
            funds.last().amount as int
        } else {
            0
        }
    }
}

/// Sum the attached coins of the payment denomination.
pub fn uluna_total(funds: &Vec<CoinValue>) -> (r: u128)
    requires
        spec_uluna_total(funds@) <= u128::MAX,
    ensures
        r == spec_uluna_total(funds@),
{
    let n = funds.len();
    let mut total: u128 = 0;
    let mut i: usize = 0;
    proof {
        assert(funds@.take(0) =~= Seq::<CoinValue>::empty());
    }
    while i < n
        invariant
            0 <= i <= n,
            n == funds@.len(),
            spec_uluna_total(funds@) <= u128::MAX,
            total == spec_uluna_total(funds@.take(i as int)),
        decreases n - i,
    {
        proof {
            lemma_uluna_take_step(funds@, i as int);
            lemma_uluna_take_bound(funds@, i as int + 1);
            lemma_uluna_nonneg(funds@.take(i as int));
        }
        if matches!(compare_keys(funds[i].denom.as_str(), "uluna"), KeyCmp::Same) {
            total = total + funds[i].amount;
        }
        i = i + 1;
    }
    proof {
        assert(funds@.take(n as int) =~= funds@);
    }
    total
}

/// A partial payment total is never negative.
proof fn lemma_uluna_nonneg(funds: Seq<CoinValue>)
    ensures
        spec_uluna_total(funds) >= 0,
    decreases funds.len(),
{
    if funds.len() > 0 {
        lemma_uluna_nonneg(funds.drop_last());
    }
}

/// One more coin adds its amount if it is of the payment denomination.
proof fn lemma_uluna_take_step(funds: Seq<CoinValue>, i: int)
    requires
        0 <= i < funds.len(),
    ensures
        spec_uluna_total(funds.take(i + 1)) == spec_uluna_total(funds.take(i)) + if funds[i].denom@
            == "uluna"@ {
            funds[i].amount as int
        } else {
            0
        },
{
    assert(funds.take(i + 1).drop_last() =~= funds.take(i));
    assert(funds.take(i + 1).last() == funds[i]);
}

/// A prefix never totals more than the whole.
proof fn lemma_uluna_take_bound(funds: Seq<CoinValue>, i: int)
    requires
        0 <= i <= funds.len(),
    ensures
        spec_uluna_total(funds.take(i)) <= spec_uluna_total(funds),
    decreases funds.len(),
{
    if i == funds.len() {
        assert(funds.take(i) =~= funds);
    } else {
        assert(funds.take(i) =~= funds.drop_last().take(i));
        lemma_uluna_take_bound(funds.drop_last(), i);
        lemma_uluna_nonneg(funds.drop_last());
    }
}

/// Whether a paid mint is funded: the price ladder of the sale. Early
/// tokens cost less; a handful of named ids carry their own prices.
pub open spec fn spec_mint_funded(token_count: u64, fund: int, token_num: Seq<char>) -> bool {
    if token_count < 1000 {
        fund == 130000 || (fund == 125000 && token_num == "b"@)
    } else {
        fund == 150000 || (fund == 145000 && token_num == "b"@) || (fund == 140000 && token_num
            == "c"@) || (fund == 135000 && token_num == "d"@) || (fund == 13000 && token_num
            == "e"@)
    }
}

/// Decide whether the attached payment covers the requested token at the
/// current supply level.
pub fn mint_funded(token_count: u64, fund: u128, token_num: &str) -> (r: bool)
    ensures
        r == spec_mint_funded(token_count, fund as int, token_num@),
{
    let is_b = matches!(compare_keys(token_num, "b"), KeyCmp::Same);
    let is_c = matches!(compare_keys(token_num, "c"), KeyCmp::Same);
    let is_d = matches!(compare_keys(token_num, "d"), KeyCmp::Same);
    let is_e = matches!(compare_keys(token_num, "e"), KeyCmp::Same);
    if token_count < 1000 {
        fund == 130000 || (fund == 125000 && is_b)
    } else {
        fund == 150000 || (fund == 145000 && is_b) || (fund == 140000 && is_c) || (fund == 135000
            && is_d) || (fund == 13000 && is_e)
    }
}

} // verus!
