//! Transaction execution results of an Exonum-style blockchain: execution
//! errors, transaction errors, and the stored form of transaction results.
pub mod context;
pub mod digest;
pub mod error;
pub mod panic;
pub mod result;

pub use error::{ExecutionError, ExecutionResult, TransactionError, TransactionErrorType};
pub use result::{status_as_u16, TransactionResult};
pub use panic::{panic_description, PanicPayload};
pub use context::{PublicKey, Transaction, TransactionContext};
