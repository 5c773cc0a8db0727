//! A recurring-payment authorization engine: once a payer has set it up, the
//! payee may pull one payment of a fixed size per fixed interval.

pub mod contract;
pub mod error;
pub mod identity;
pub mod laws;
pub mod record;
pub mod store;

pub use contract::{RecurringRevenueContract, RecurringRevenueTrait};
pub use error::Error;
pub use identity::{to_account, AccountId, ContractId, Invoker};
pub use record::{Record, StorageKey, Transfer};
pub use store::Store;
