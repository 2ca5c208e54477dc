//! The run of one child: its settings, its supervision and its result.

pub mod child;
pub mod data;
pub mod error;
pub mod execution_result;
pub mod jail;
pub mod protocol;
pub mod timeout;

pub use self::child::ChildInternals;
pub use self::child::ChildState;
pub use self::data::ExecutionContext;
pub use self::data::ExecutionSettings;
pub use self::error::RunError;
pub use self::error::SpawnError;
pub use self::execution_result::ExecutionResult;
pub use self::execution_result::ExitReason;
pub use self::execution_result::ExitStatus;
pub use self::jail::Feature;
pub use self::jail::FeatureSet;
pub use self::jail::Perfjail;
