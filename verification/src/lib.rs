//! Wallet spending-policy templates: constructors that turn a high-level intent
//! (a single key, an N-of-M wallet with recovery, long-term holding with decay)
//! into an ordered schedule of alternative spending conditions.

pub mod condition;
pub mod format;
pub mod template;
pub mod time;

pub use condition::{SigsReq, SpendingCondition, TimelockReq};
pub use format::{Bip43, PublicNetwork, WalletFormat};
pub use template::{Requirement, TemplateError, WalletTemplate};
pub use time::UtcInstant;
