pub mod allowlist;
pub mod level;
pub mod payload;
pub mod dispatch;
pub mod delivery;
pub mod tagging;
