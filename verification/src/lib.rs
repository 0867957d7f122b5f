pub mod addrfmt;
pub mod analyzer;
pub mod decode;
pub mod flags;
pub mod laws;
pub mod record;
pub mod types;

pub use record::PacketStats;
pub use types::FrameData;
