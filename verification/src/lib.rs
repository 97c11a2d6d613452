//! Core of a local audio playback engine: the command-driven transport
//! state machine, the dual-source crossfade mixer with its fixed-point gain
//! curves, the bounded sample ring buffer, the pure decisions of the decode
//! loop, and the metadata/artwork read model. All time is carried in
//! milliseconds and all gains in fixed-point units, so the engine's
//! behaviour is exact and proved.

pub mod curve;
pub mod decode;
pub mod engine;
pub mod eq;
pub mod fixed;
pub mod meta;
pub mod paths;
pub mod player;
pub mod ring;

pub use curve::CrossfadeCurve;
pub use engine::CrossfadeAudioPlayer;
pub use engine::CrossfadeCommand;
pub use engine::CrossfadeConfig;
pub use engine::CrossfadeTrackInfo;
pub use eq::EqualizerBands;
pub use meta::AlbumArtwork;
pub use meta::TrackMetadata;
pub use player::PlayerState;
pub use player::SymphoniaPlayer;
pub use ring::RingBuffer;
