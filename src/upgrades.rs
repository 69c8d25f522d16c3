use std::sync::Arc;

use vstd::prelude::*;
use vstd::string::StringExecFns;

verus! {

/// The little-endian bytes of `x`.
pub open spec fn u64_le_bytes(x: u64) -> Seq<u8> {
    seq![
        (x % 0x100) as u8,
        (x / 0x100 % 0x100) as u8,
        (x / 0x1_0000 % 0x100) as u8,
        (x / 0x100_0000 % 0x100) as u8,
        (x / 0x1_0000_0000 % 0x100) as u8,
        (x / 0x100_0000_0000 % 0x100) as u8,
        (x / 0x1_0000_0000_0000 % 0x100) as u8,
        (x / 0x100_0000_0000_0000 % 0x100) as u8,
    ]
}

/// Relies on `borsh::to_vec` for a pair of `u64`: each field in order as its eight
/// little-endian bytes. Writing into a `Vec` cannot fail.
#[verifier::external_body]
fn borsh_u64_pair(first: u64, second: u64) -> (r: Vec<u8>)
    ensures
        r@ == u64_le_bytes(first) + u64_le_bytes(second),
{
    match borsh::to_vec(&(first, second)) {
        Ok(bytes) => bytes,
        Err(_) => Vec::new(),
    }
}

/// The market map module's genesis state, carried as its protobuf encoding.
#[derive(Debug)]
pub struct MarketMapGenesis {
    pub encoded: Vec<u8>,
}

/// The oracle module's genesis state, carried as its protobuf encoding.
#[derive(Debug)]
pub struct OracleGenesis {
    pub encoded: Vec<u8>,
}

impl Clone for MarketMapGenesis {
    fn clone(&self) -> (r: Self)
        ensures
            r.encoded@ == self.encoded@,
    {
        MarketMapGenesis { encoded: self.encoded.clone() }
    }
}

impl Clone for OracleGenesis {
    fn clone(&self) -> (r: Self)
        ensures
            r.encoded@ == self.encoded@,
    {
        OracleGenesis { encoded: self.encoded.clone() }
    }
}

/// When an upgrade takes effect, and the application version it brings.
#[derive(Clone, Copy, Debug, PartialEq, Eq)]
pub struct RawBaseUpgradeInfo {
    pub activation_height: u64,
    pub app_version: u64,
}

/// The wire form of the price feed change.
#[derive(Clone, Debug)]
pub struct RawPriceFeedChange {
    pub market_map_genesis: Option<MarketMapGenesis>,
    pub oracle_genesis: Option<OracleGenesis>,
}

/// The wire form of the validator update action change; it carries nothing.
#[derive(Clone, Copy, Debug, PartialEq, Eq)]
pub struct RawValidatorUpdateActionChange {}

/// The wire form of the IBC acknowledgement failure change; it carries nothing.
#[derive(Clone, Copy, Debug, PartialEq, Eq)]
pub struct RawIbcAcknowledgementFailureChange {}

/// The wire form of the Aspen upgrade.
#[derive(Clone, Debug)]
pub struct RawAspen {
    pub base_info: Option<RawBaseUpgradeInfo>,
    pub price_feed_change: Option<RawPriceFeedChange>,
    pub validator_update_action_change: Option<RawValidatorUpdateActionChange>,
    pub ibc_acknowledgement_failure_change: Option<RawIbcAcknowledgementFailureChange>,
}

/// A field of [`RawAspen`] that must be set.
#[derive(Clone, Copy, Debug, PartialEq, Eq)]
pub enum MissingField {
    BaseInfo,
    PriceFeedChange,
    PriceFeedMarketMapGenesis,
    PriceFeedOracleGenesis,
    ValidatorUpdateActionChange,
    IbcAcknowledgementFailureChange,
}

impl MissingField {
    pub open spec fn spec_name(self) -> Seq<char> {
        match self {
            MissingField::BaseInfo => "base_info"@,
            MissingField::PriceFeedChange => "price_feed_change"@,
            MissingField::PriceFeedMarketMapGenesis => "price_feed_change.market_map_genesis"@,
            MissingField::PriceFeedOracleGenesis => "price_feed_change.oracle_genesis"@,
            MissingField::ValidatorUpdateActionChange => "validator_update_action_change"@,
            MissingField::IbcAcknowledgementFailureChange => "ibc_acknowledgement_failure_change"@,
        }
    }

    /// The field's path in the wire form.
    pub fn name(&self) -> (r: &'static str)
        ensures
            r@ == self.spec_name(),
    {
        match self {
            MissingField::BaseInfo => "base_info",
            MissingField::PriceFeedChange => "price_feed_change",
            MissingField::PriceFeedMarketMapGenesis => "price_feed_change.market_map_genesis",
            MissingField::PriceFeedOracleGenesis => "price_feed_change.oracle_genesis",
            MissingField::ValidatorUpdateActionChange => "validator_update_action_change",
            MissingField::IbcAcknowledgementFailureChange => "ibc_acknowledgement_failure_change",
        }
    }
}

/// What an Aspen upgrade states, whatever its form.
pub struct AspenView {
    pub activation_height: u64,
    pub app_version: u64,
    pub market_map_genesis: Seq<u8>,
    pub oracle_genesis: Seq<u8>,
}

impl RawAspen {
    /// The first unset field, in the order in which they are checked.
    pub open spec fn first_missing(&self) -> Option<MissingField> {
        if self.base_info is None {
            Some(MissingField::BaseInfo)
        } else if self.price_feed_change is None {
            Some(MissingField::PriceFeedChange)
        } else if self.price_feed_change->Some_0.market_map_genesis is None {
            Some(MissingField::PriceFeedMarketMapGenesis)
        } else if self.price_feed_change->Some_0.oracle_genesis is None {
            Some(MissingField::PriceFeedOracleGenesis)
        } else if self.validator_update_action_change is None {
            Some(MissingField::ValidatorUpdateActionChange)
        } else if self.ibc_acknowledgement_failure_change is None {
            Some(MissingField::IbcAcknowledgementFailureChange)
        } else {
            None
        }
    }

    /// What a raw upgrade with every field set states.
    pub open spec fn spec_upgrade(&self) -> AspenView {
        AspenView {
            activation_height: self.base_info->Some_0.activation_height,
            app_version: self.base_info->Some_0.app_version,
            market_map_genesis: self.price_feed_change->Some_0.market_map_genesis->Some_0.encoded@,
            oracle_genesis: self.price_feed_change->Some_0.oracle_genesis->Some_0.encoded@,
        }
    }
}

impl AspenView {
    /// Whether `raw` is the wire form of this upgrade.
    pub open spec fn is_encoded_by(self, raw: RawAspen) -> bool {
        &&& raw.first_missing() is None
        &&& raw.spec_upgrade() == self
    }
}

/// Why a [`RawAspen`] could not be turned into an [`Aspen`].
#[derive(Debug)]
pub struct Error {
    field: MissingField,
}

impl Error {
    pub closed spec fn spec_field(&self) -> MissingField {
        self.field
    }

    fn no_base_info() -> (r: Self)
        ensures
            r.spec_field() == MissingField::BaseInfo,
    {
        Error { field: MissingField::BaseInfo }
    }

    fn no_price_feed_change() -> (r: Self)
        ensures
            r.spec_field() == MissingField::PriceFeedChange,
    {
        Error { field: MissingField::PriceFeedChange }
    }

    fn no_validator_update_action_change() -> (r: Self)
        ensures
            r.spec_field() == MissingField::ValidatorUpdateActionChange,
    {
        Error { field: MissingField::ValidatorUpdateActionChange }
    }

    fn ibc_acknowledgement_failure_change() -> (r: Self)
        ensures
            r.spec_field() == MissingField::IbcAcknowledgementFailureChange,
    {
        Error { field: MissingField::IbcAcknowledgementFailureChange }
    }

    fn no_price_feed_market_map_genesis() -> (r: Self)
        ensures
            r.spec_field() == MissingField::PriceFeedMarketMapGenesis,
    {
        Error { field: MissingField::PriceFeedMarketMapGenesis }
    }

    fn no_price_feed_oracle_genesis() -> (r: Self)
        ensures
            r.spec_field() == MissingField::PriceFeedOracleGenesis,
    {
        Error { field: MissingField::PriceFeedOracleGenesis }
    }

    /// A human-readable account of the error.
    pub fn message(&self) -> (r: String)
        ensures
            r@ == "`"@ + self.spec_field().spec_name() + "` field was not set"@,
    {
        let mut m = String::from_str("`");
        m.append(self.field.name());
        m.append("` field was not set");
        m
    }

    /// The field that was not set.
    pub fn missing_field(&self) -> (r: MissingField)
        ensures
            r == self.spec_field(),
    {
        self.field
    }
}


/// Enables vote extensions and starts to provide price feed data through them.
///
/// Vote extensions are enabled in the block right after the activation height, so price
/// feed data is available no earlier than two blocks after it.
#[derive(Clone, Debug)]
pub struct PriceFeedChange {
    activation_height: u64,
    app_version: u64,
    market_map_genesis: Arc<MarketMapGenesis>,
    oracle_genesis: Arc<OracleGenesis>,
}

/// Introduces the sequencer actions that update the validator set.
#[derive(Clone, Copy, Debug, PartialEq, Eq)]
pub struct ValidatorUpdateActionChange {
    activation_height: u64,
    app_version: u64,
}

/// Makes a fixed string the error message of an ICS20 transfer failure acknowledgement.
#[derive(Clone, Copy, Debug, PartialEq, Eq)]
pub struct IbcAcknowledgementFailureChange {
    activation_height: u64,
    app_version: u64,
}

impl PriceFeedChange {
    pub closed spec fn spec_activation_height(&self) -> u64 {
        self.activation_height
    }

    pub closed spec fn spec_app_version(&self) -> u64 {
        self.app_version
    }

    pub closed spec fn spec_market_map_genesis(&self) -> Seq<u8> {
        self.market_map_genesis.encoded@
    }

    pub closed spec fn spec_oracle_genesis(&self) -> Seq<u8> {
        self.oracle_genesis.encoded@
    }

    pub fn name(&self) -> (r: &'static str)
        ensures
            r@ == "price_feed_change"@,
    {
        "price_feed_change"
    }

    pub fn activation_height(&self) -> (r: u64)
        ensures
            r == self.spec_activation_height(),
    {
        self.activation_height
    }

    pub fn app_version(&self) -> (r: u64)
        ensures
            r == self.spec_app_version(),
    {
        self.app_version
    }

    pub fn market_map_genesis(&self) -> (r: &Arc<MarketMapGenesis>)
        ensures
            r.encoded@ == self.spec_market_map_genesis(),
    {
        &self.market_map_genesis
    }

    pub fn oracle_genesis(&self) -> (r: &Arc<OracleGenesis>)
        ensures
            r.encoded@ == self.spec_oracle_genesis(),
    {
        &self.oracle_genesis
    }
}

impl ValidatorUpdateActionChange {
    pub closed spec fn spec_activation_height(&self) -> u64 {
        self.activation_height
    }

    pub closed spec fn spec_app_version(&self) -> u64 {
        self.app_version
    }

    pub fn name(&self) -> (r: &'static str)
        ensures
            r@ == "validator_update_action_change"@,
    {
        "validator_update_action_change"
    }

    pub fn activation_height(&self) -> (r: u64)
        ensures
            r == self.spec_activation_height(),
    {
        self.activation_height
    }

    pub fn app_version(&self) -> (r: u64)
        ensures
            r == self.spec_app_version(),
    {
        self.app_version
    }

    /// The change's deterministic serialization: activation height, then application
    /// version, each as eight little-endian bytes.
    pub fn to_vec(&self) -> (r: Vec<u8>)
        ensures
            r@ == u64_le_bytes(self.spec_activation_height()) + u64_le_bytes(
                self.spec_app_version(),
            ),
    {
        borsh_u64_pair(self.activation_height, self.app_version)
    }
}

impl IbcAcknowledgementFailureChange {
    pub closed spec fn spec_activation_height(&self) -> u64 {
        self.activation_height
    }

    pub closed spec fn spec_app_version(&self) -> u64 {
        self.app_version
    }

    pub fn name(&self) -> (r: &'static str)
        ensures
            r@ == "ibc_acknowledgement_failure_change"@,
    {
        "ibc_acknowledgement_failure_change"
    }

    pub fn activation_height(&self) -> (r: u64)
        ensures
            r == self.spec_activation_height(),
    {
        self.activation_height
    }

    pub fn app_version(&self) -> (r: u64)
        ensures
            r == self.spec_app_version(),
    {
        self.app_version
    }

    /// The change's deterministic serialization: activation height, then application
    /// version, each as eight little-endian bytes.
    pub fn to_vec(&self) -> (r: Vec<u8>)
        ensures
            r@ == u64_le_bytes(self.spec_activation_height()) + u64_le_bytes(
                self.spec_app_version(),
            ),
    {
        borsh_u64_pair(self.activation_height, self.app_version)
    }
}

/// One of the changes an upgrade makes.
pub enum Change<'a> {
    PriceFeed(&'a PriceFeedChange),
    ValidatorUpdateAction(&'a ValidatorUpdateActionChange),
    IbcAcknowledgementFailure(&'a IbcAcknowledgementFailureChange),
}

impl<'a> Change<'a> {
    pub open spec fn spec_activation_height(self) -> u64 {
        match self {
            Change::PriceFeed(c) => c.spec_activation_height(),
            Change::ValidatorUpdateAction(c) => c.spec_activation_height(),
            Change::IbcAcknowledgementFailure(c) => c.spec_activation_height(),
        }
    }

    pub open spec fn spec_app_version(self) -> u64 {
        match self {
            Change::PriceFeed(c) => c.spec_app_version(),
            Change::ValidatorUpdateAction(c) => c.spec_app_version(),
            Change::IbcAcknowledgementFailure(c) => c.spec_app_version(),
        }
    }

    pub open spec fn spec_name(self) -> Seq<char> {
        match self {
            Change::PriceFeed(_) => "price_feed_change"@,
            Change::ValidatorUpdateAction(_) => "validator_update_action_change"@,
            Change::IbcAcknowledgementFailure(_) => "ibc_acknowledgement_failure_change"@,
        }
    }

    pub fn name(&self) -> (r: &'static str)
        ensures
            r@ == self.spec_name(),
    {
        match self {
            Change::PriceFeed(c) => c.name(),
            Change::ValidatorUpdateAction(c) => c.name(),
            Change::IbcAcknowledgementFailure(c) => c.name(),
        }
    }

    pub fn activation_height(&self) -> (r: u64)
        ensures
            r == self.spec_activation_height(),
    {
        match self {
            Change::PriceFeed(c) => c.activation_height(),
            Change::ValidatorUpdateAction(c) => c.activation_height(),
            Change::IbcAcknowledgementFailure(c) => c.activation_height(),
        }
    }

    pub fn app_version(&self) -> (r: u64)
        ensures
            r == self.spec_app_version(),
    {
        match self {
            Change::PriceFeed(c) => c.app_version(),
            Change::ValidatorUpdateAction(c) => c.app_version(),
            Change::IbcAcknowledgementFailure(c) => c.app_version(),
        }
    }
}

/// The Aspen network upgrade: the price feed, validator update action and IBC
/// acknowledgement failure changes, all taking effect at one height.
#[derive(Clone, Debug)]
pub struct Aspen {
    activation_height: u64,
    app_version: u64,
    price_feed_change: PriceFeedChange,
    validator_update_action_change: ValidatorUpdateActionChange,
    ibc_acknowledgement_failure_change: IbcAcknowledgementFailureChange,
}

impl Aspen {
    pub closed spec fn view(&self) -> AspenView {
        AspenView {
            activation_height: self.activation_height,
            app_version: self.app_version,
            market_map_genesis: self.price_feed_change.spec_market_map_genesis(),
            oracle_genesis: self.price_feed_change.spec_oracle_genesis(),
        }
    }

    /// Every change takes effect at the upgrade's height, with its application version.
    pub closed spec fn wf(&self) -> bool {
        &&& self.price_feed_change.activation_height == self.activation_height
        &&& self.price_feed_change.app_version == self.app_version
        &&& self.validator_update_action_change.activation_height == self.activation_height
        &&& self.validator_update_action_change.app_version == self.app_version
        &&& self.ibc_acknowledgement_failure_change.activation_height == self.activation_height
        &&& self.ibc_acknowledgement_failure_change.app_version == self.app_version
    }

    pub fn name(&self) -> (r: &'static str)
        ensures
            r@ == "aspen"@,
    {
        "aspen"
    }

    pub fn activation_height(&self) -> (r: u64)
        ensures
            r == self@.activation_height,
    {
        self.activation_height
    }

    pub fn app_version(&self) -> (r: u64)
        ensures
            r == self@.app_version,
    {
        self.app_version
    }

    pub fn price_feed_change(&self) -> (r: &PriceFeedChange)
        requires
            self.wf(),
        ensures
            r.spec_activation_height() == self@.activation_height,
            r.spec_app_version() == self@.app_version,
            r.spec_market_map_genesis() == self@.market_map_genesis,
            r.spec_oracle_genesis() == self@.oracle_genesis,
    {
        &self.price_feed_change
    }

    pub fn validator_update_action_change(&self) -> (r: &ValidatorUpdateActionChange)
        requires
            self.wf(),
        ensures
            r.spec_activation_height() == self@.activation_height,
            r.spec_app_version() == self@.app_version,
    {
        &self.validator_update_action_change
    }

    pub fn ibc_acknowledgement_failure_change(&self) -> (r: &IbcAcknowledgementFailureChange)
        requires
            self.wf(),
        ensures
            r.spec_activation_height() == self@.activation_height,
            r.spec_app_version() == self@.app_version,
    {
        &self.ibc_acknowledgement_failure_change
    }

    /// The upgrade's changes: price feed, validator update action, IBC acknowledgement
    /// failure, in that order.
    pub fn changes(&self) -> (r: Vec<Change<'_>>)
        requires
            self.wf(),
        ensures
            r@.len() == 3,
            r@[0] is PriceFeed,
            r@[1] is ValidatorUpdateAction,
            r@[2] is IbcAcknowledgementFailure,
            forall|i: int|
                0 <= i < 3 ==> (#[trigger] r@[i]).spec_activation_height() == self@.activation_height
                    && r@[i].spec_app_version() == self@.app_version,
    {
        let mut changes: Vec<Change<'_>> = Vec::new();
        changes.push(Change::PriceFeed(&self.price_feed_change));
        changes.push(Change::ValidatorUpdateAction(&self.validator_update_action_change));
        changes.push(Change::IbcAcknowledgementFailure(&self.ibc_acknowledgement_failure_change));
        changes
    }

    /// Reads an upgrade from its wire form; the first unset field, in the order
    /// base info, price feed change, its market map genesis, its oracle genesis,
    /// validator update action change, IBC acknowledgement failure change, is reported.
    pub fn try_from_raw_ref(raw: &RawAspen) -> (r: Result<Aspen, Error>)
        ensures
            r is Ok <==> raw.first_missing() is None,
            r is Ok ==> r->Ok_0.wf() && r->Ok_0@ == raw.spec_upgrade(),
            r is Err ==> r->Err_0.spec_field() == raw.first_missing()->Some_0,
    {
        let base = match &raw.base_info {
            Some(b) => *b,
            None => return Err(Error::no_base_info()),
        };
        let price_feed_change = match &raw.price_feed_change {
            Some(c) => c,
            None => return Err(Error::no_price_feed_change()),
        };
        let market_map_genesis = match &price_feed_change.market_map_genesis {
            Some(g) => g.clone(),
            None => return Err(Error::no_price_feed_market_map_genesis()),
        };
        let oracle_genesis = match &price_feed_change.oracle_genesis {
            Some(g) => g.clone(),
            None => return Err(Error::no_price_feed_oracle_genesis()),
        };
        if raw.validator_update_action_change.is_none() {
            return Err(Error::no_validator_update_action_change());
        }
        if raw.ibc_acknowledgement_failure_change.is_none() {
            return Err(Error::ibc_acknowledgement_failure_change());
        }
        let activation_height = base.activation_height;
        let app_version = base.app_version;
        Ok(Aspen {
            activation_height,
            app_version,
            price_feed_change: PriceFeedChange {
                activation_height,
                app_version,
                market_map_genesis: Arc::new(market_map_genesis),
                oracle_genesis: Arc::new(oracle_genesis),
            },
            validator_update_action_change: ValidatorUpdateActionChange {
                activation_height,
                app_version,
            },
            ibc_acknowledgement_failure_change: IbcAcknowledgementFailureChange {
                activation_height,
                app_version,
            },
        })
    }

    /// The upgrade's wire form, with every field set.
    pub fn to_raw(&self) -> (r: RawAspen)
        ensures
            self@.is_encoded_by(r),
    {
        let market_map_genesis: MarketMapGenesis = (*self.price_feed_change.market_map_genesis).clone();
        let oracle_genesis: OracleGenesis = (*self.price_feed_change.oracle_genesis).clone();
        RawAspen {
            base_info: Some(
                RawBaseUpgradeInfo {
                    activation_height: self.activation_height,
                    app_version: self.app_version,
                },
            ),
            price_feed_change: Some(
                RawPriceFeedChange {
                    market_map_genesis: Some(market_map_genesis),
                    oracle_genesis: Some(oracle_genesis),
                },
            ),
            validator_update_action_change: Some(RawValidatorUpdateActionChange {  }),
            ibc_acknowledgement_failure_change: Some(RawIbcAcknowledgementFailureChange {  }),
        }
    }
}

} // verus!
