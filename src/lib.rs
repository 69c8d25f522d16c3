//! Strictly ordered ingestion of sequencer blocks for a rollup conductor, and the
//! descriptors of the Aspen network upgrade.
//!
//! The reader's decisions (which height to fetch, what to cache, when to forward a block
//! to the executor, when to stop) are plain state transitions proved here; the driver that
//! awaits the network, the executor channel and the shutdown token lives outside.

pub mod block;
pub mod block_cache;
pub mod block_stream;
pub mod currency_pair;
pub mod reader;
pub mod trace;
pub mod upgrades;

pub use block::FilteredBlock;
pub use block_cache::{BlockCache, InsertError, DEFAULT_CAPACITY};
pub use block_stream::BlocksFromHeight;
pub use currency_pair::CurrencyPair;
pub use reader::{
    report_exit, FetchError, Reader, ReaderError, RollupState, RunningReader, TransportError,
    TrySendOutcome,
};
pub use upgrades::{
    Aspen, Change, Error, IbcAcknowledgementFailureChange, MarketMapGenesis, MissingField,
    OracleGenesis, PriceFeedChange, RawAspen, RawBaseUpgradeInfo,
    RawIbcAcknowledgementFailureChange, RawPriceFeedChange, RawValidatorUpdateActionChange,
    ValidatorUpdateActionChange,
};
