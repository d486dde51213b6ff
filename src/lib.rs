//! Security-advisory notifier core: the coordinator that folds triggers into
//! single checks, the status and icon model, and validated icon theme names.
pub mod coordinator;
pub mod icon;
pub mod replay;
pub mod status;
pub mod theme;
