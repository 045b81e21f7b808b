//! Decision core of ArtemisIA, a robot that wanders a tile world, gathers
//! rocks and trees, and paints until its countdown of paintings runs out.
//!
//! The core owns the robot's finite-state machine and its bookkeeping. It
//! never touches the world: callers carry out the scanning, planning,
//! collecting and painting, and hand the results in as plain values.

pub mod agent;
pub mod events;
pub mod lifetime;
pub mod model;
mod random;
pub mod state;
pub mod tracker;
pub mod utils;
pub mod worldgen;

pub use agent::{ArtemisIA, ScanRequest};
pub use model::AgentView;
pub use events::{Action, Command, PaintStatus, Report, ScanOutcome, Tick};
pub use state::{check_transition, is_valid_transition, InvalidTransition, RobotState};
pub use tracker::{CompletionTracker, Quota, Resource};
pub use utils::{build_img, catalogue_img, last_img, rand_img, ImageRequest};
pub use worldgen::{get_world_generator_parameters, ContentsRadii, WorldGeneratorParameters};
