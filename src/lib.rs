//! Decoding of the notification packets of a Muse headband into
//! synchronised frames of raw sample counts.
//!
//! Packets go through a [`MuseSession`], which classifies each channel
//! identifier for the selected variant, decodes the payload, accumulates EEG
//! samples until every channel has arrived, and emits frames. All values are
//! exact integers: EEG counts scale to microvolts by
//! `EegResolution::scale_factor`, and the blood-oxygen estimate is a
//! [`Fraction`].

pub mod aggregator;
pub mod command;
pub mod decode;
pub mod device;
pub mod laws;
pub mod metrics;
pub mod session;
pub mod state;
pub mod status;

pub use aggregator::{classify_channel, ChannelKind, MuseProcessedData};
pub use command::{get_muse_model_from_name, send_muse_command};
pub use decode::{cast_16bit_to_int32, cast_24bit_to_int32, MotionVector};
pub use device::{EegResolution, Fraction, MuseModel, MusePacketType};
pub use session::MuseSession;
pub use state::MuseState;
pub use status::{get_connection_status, BoardQuery, ConnectionStatus};
