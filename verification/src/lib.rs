//! Position tracking, playing-state rules and input decisions of a
//! tablature viewer, stated over plain values and verified.

pub mod application;
pub mod assets;
pub mod context;
pub mod input;
pub mod kb;
pub mod playing;
pub mod position;
pub mod strings;
pub mod text;
pub mod units;
pub mod view;
pub mod viewer;

pub use application::NotationApp;
pub use assets::DynamicAssetFile;
pub use assets::NotationKnowledgeBaseAssets;
pub use context::Context;
pub use context::ContextDsl;
pub use context::FrettedContext;
pub use playing::EntryPlaying;
pub use playing::PlayControl;
pub use playing::PlayState;
pub use playing::PlayingState;
pub use playing::TabState;
pub use position::BarPosition;
pub use position::Position;
pub use position::TabPosition;
pub use units::Units;
pub use viewer::NotationViewer;
