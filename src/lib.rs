//! Core of a small real-time 2D demo: an entity store driven by fixed-point
//! simulation systems, named asset caches with load-once semantics, the
//! decisions of audio playback, and the timing of the frame loop.
pub mod component;
pub mod world;
pub mod entity;
pub mod system;
pub mod names;
pub mod assets;
pub mod resource;
pub mod frame;
pub mod overlay;
pub mod logger;
pub mod window;
