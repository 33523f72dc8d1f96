//! A minimal real-time application shell: a frame-loop timing engine, a
//! stack of layered scenes with an enter/exit lifecycle, and a type-erased
//! registry for heterogeneous loadable assets.
//!
//! The windowing and graphics backend, event polling and log sinks are
//! external collaborators; this crate holds the decisions the shell makes
//! each frame: delta-time clamping, the frame-rate estimate and throttle,
//! event planning, scene lifecycle ordering and type-checked asset
//! retrieval.

pub mod app;
pub mod assets;
pub mod behavior;
pub mod error;
pub mod event;
pub mod logger;
pub mod scene;
pub mod utils;

pub use app::AppConfig;
pub use app::EventPlan;
pub use app::FrameTimer;
pub use app::plan_events;
pub use assets::Asset;
pub use assets::AssetManager;
pub use assets::LoadableAsset;
pub use behavior::AppBehavior;
pub use error::NeutonError;
pub use error::NeutonResult;
pub use event::Event;
pub use logger::resolve_log_directory;
pub use scene::Scene;
pub use scene::SceneStack;
pub use utils::keyboard_pressed;
