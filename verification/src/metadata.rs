//! Token metadata and the royalty lookup over it.
use vstd::prelude::*;

verus! {

/// One display attribute of a token.
#[derive(Clone, Debug, PartialEq)]
pub struct Trait {
    pub display_type: Option<String>,
    pub trait_type: String,
    pub value: String,
}

/// A token's metadata, including its royalty terms.
#[derive(Clone, Debug, PartialEq)]
pub struct Metadata {
    pub image: Option<String>,
    pub image_data: Option<String>,
    pub external_url: Option<String>,
    pub description: Option<String>,
    pub name: Option<String>,
    pub attributes: Option<Vec<Trait>>,
    pub background_color: Option<String>,
    pub animation_url: Option<String>,
    pub youtube_url: Option<String>,
    pub royalty_percentage: Option<u64>,
    pub royalty_payment_address: Option<String>,
}

impl Default for Metadata {
    /// Metadata with nothing filled in.
    fn default() -> (r: Metadata)
        ensures
            r.image is None && r.image_data is None && r.external_url is None
                && r.description is None && r.name is None && r.attributes is None
                && r.background_color is None && r.animation_url is None
                && r.youtube_url is None && r.royalty_percentage is None
                && r.royalty_payment_address is None,
    {
        Metadata {
            image: None,
            image_data: None,
            external_url: None,
            description: None,
            name: None,
            attributes: None,
            background_color: None,
            animation_url: None,
            youtube_url: None,
            royalty_percentage: None,
            royalty_payment_address: None,
        }
    }
}

/// A token's custom payload: metadata, or nothing.
pub type Extension = Option<Metadata>;

/// Two metadata values that agree on every field; the attribute lists are
/// compared element by element.
pub open spec fn metadata_matches(a: Metadata, b: Metadata) -> bool {
    &&& a.image == b.image
    &&& a.image_data == b.image_data
    &&& a.external_url == b.external_url
    &&& a.description == b.description
    &&& a.name == b.name
    &&& a.background_color == b.background_color
    &&& a.animation_url == b.animation_url
    &&& a.youtube_url == b.youtube_url
    &&& a.royalty_percentage == b.royalty_percentage
    &&& a.royalty_payment_address == b.royalty_payment_address
    &&& match (a.attributes, b.attributes) {
        (None, None) => true,
        (Some(x), Some(y)) => x@ == y@,
        _ => false,
    }
}

/// Two extensions that agree: both absent, or matching metadata.
pub open spec fn extension_matches(a: Extension, b: Extension) -> bool {
    match (a, b) {
        (None, None) => true,
        (Some(x), Some(y)) => metadata_matches(x, y),
        _ => false,
    }
}

/// Copy an optional string exactly.
fn duplicate_opt_string(o: &Option<String>) -> (r: Option<String>)
    ensures
        r == *o,
{
    match o {
        Some(s) => Some(s.clone()),
        None => None,
    }
}

impl Trait {
    /// Copy one attribute exactly.
    pub fn duplicate(&self) -> (r: Trait)
        ensures
            r == *self,
    {
        Trait {
            display_type: duplicate_opt_string(&self.display_type),
            trait_type: self.trait_type.clone(),
            value: self.value.clone(),
        }
    }
}

impl Metadata {
    /// Copy a metadata value field by field.
    pub fn duplicate(&self) -> (r: Metadata)
        ensures
            metadata_matches(r, *self),
    {
        let attributes: Option<Vec<Trait>> = match &self.attributes {
            Some(v) => {
                let n = v.len();
                let mut out: Vec<Trait> = Vec::new();
                let mut i: usize = 0;
                while i < n
                    invariant
                        0 <= i <= n,
                        n == v@.len(),
                        out@.len() == i,
                        forall|j: int| 0 <= j < i ==> (#[trigger] out@[j]) == v@[j],
                    decreases n - i,
                {
                    out.push(v[i].duplicate());
                    i = i + 1;
                }
                proof {
                    assert(out@ =~= v@);
                }
                Some(out)
            },
            None => None,
        };
        Metadata {
            image: duplicate_opt_string(&self.image),
            image_data: duplicate_opt_string(&self.image_data),
            external_url: duplicate_opt_string(&self.external_url),
            description: duplicate_opt_string(&self.description),
            name: duplicate_opt_string(&self.name),
            attributes,
            background_color: duplicate_opt_string(&self.background_color),
            animation_url: duplicate_opt_string(&self.animation_url),
            youtube_url: duplicate_opt_string(&self.youtube_url),
            royalty_percentage: self.royalty_percentage,
            royalty_payment_address: duplicate_opt_string(&self.royalty_payment_address),
        }
    }
}

/// Copy an extension exactly enough for every reader: matching metadata.
pub fn duplicate_extension(e: &Extension) -> (r: Extension)
    ensures
        extension_matches(r, *e),
{
    match e {
        Some(m) => Some(m.duplicate()),
        None => None,
    }
}

/// The royalty share a token's metadata declares, in whole percent;
/// absent metadata or an absent entry mean none.
pub open spec fn spec_royalty_percentage(ext: Extension) -> u64 {
    match ext {
        Some(m) => match m.royalty_percentage {
            Some(p) => p,
            None => 0,
        },
        None => 0,
    }
}

/// Royalty terms for one sale.
#[derive(Clone, Debug)]
pub struct RoyaltiesInfoResponse {
    pub address: String,
    pub royalty_amount: u128,
}

/// Whether this contract pays royalties at all.
#[derive(Clone, Copy, Debug, PartialEq, Eq, Structural)]
pub struct CheckRoyaltiesResponse {
    pub royalty_payments: bool,
}

/// This contract implements per-token royalties.
pub fn check_royalties() -> (r: CheckRoyaltiesResponse)
    ensures
        r.royalty_payments,
{
    CheckRoyaltiesResponse { royalty_payments: true }
}

/// The royalty owed on a sale at the given whole-percent share: the
/// price's fraction, rounded down.
pub fn royalty_amount(sale_price: u128, percentage: u64) -> (r: u128)
    requires
        sale_price * percentage <= u128::MAX,
    ensures
        r == sale_price * percentage / 100,
{
    proof {
        vstd::arithmetic::div_mod::lemma_div_is_ordered(
            sale_price * percentage as int,
            u128::MAX as int,
            100,
        );
        vstd::arithmetic::div_mod::lemma_div_nonincreasing(u128::MAX as int, 100);
    }
    sale_price * (percentage as u128) / 100
}

/// The royalty terms of one token's metadata applied to a sale: the share
/// the metadata declares, paid to the address it names, or nothing and an
/// empty address where it names none.
pub fn token_royalty_info(ext: &Extension, sale_price: u128) -> (r: RoyaltiesInfoResponse)
    requires
        sale_price * spec_royalty_percentage(*ext) <= u128::MAX,
    ensures
        r.royalty_amount == sale_price * spec_royalty_percentage(*ext) / 100,
        r.address@ == match *ext {
            Some(m) => match m.royalty_payment_address {
                Some(a) => a@,
                None => Seq::<char>::empty(),
            },
            None => Seq::<char>::empty(),
        },
{
    let percentage: u64 = match ext {
        Some(m) => match m.royalty_percentage {
            Some(p) => p,
            None => 0,
        },
        None => 0,
    };
    let amount = royalty_amount(sale_price, percentage);
    let address: String = match ext {
        Some(m) => match &m.royalty_payment_address {
            Some(a) => a.clone(),
            None => String::new(),
        },
        None => String::new(),
    };
    RoyaltiesInfoResponse { address, royalty_amount: amount }
}

} // verus!
