//! Bit-exact encoding of configuration commands for a sub-GHz radio
//! transceiver.
//!
//! Every command is a five-byte buffer: an operation code followed by four
//! parameter bytes.  The builders in this crate start from a default buffer
//! and write single fields; `as_slice` hands the bytes to a transport.

pub mod ocp;
pub mod op_code;
pub mod pa_config;
pub mod packet_type;
pub mod reg_mode;
pub mod rf_frequency;
pub mod tcxo_mode;

pub use ocp::Ocp;
pub use op_code::OpCode;
pub use pa_config::{PaConfig, PaSel};
pub use packet_type::PacketType;
pub use reg_mode::RegMode;
pub use rf_frequency::RfFreq;
pub use tcxo_mode::{TcxoMode, TcxoTrim};
