//! Watches the operating system's global light/dark appearance setting and
//! reacts to changes.
//!
//! The verified core models the observation bridge: classifying native
//! appearance-name tokens, transporting a user callback across the foreign
//! boundary as an opaque handle that is freed exactly once, registering and
//! tearing down a key-value observation, and the decisions the run loop makes
//! on each notification. The raw foreign calls themselves live outside the
//! library, in the surrounding application.

pub mod appearance;
pub mod session;
pub mod subscription;
pub mod transport;

pub use appearance::Appearance;
pub use appearance::classify;
pub use appearance::render;
pub use session::Options;
pub use session::Session;
pub use session::initial_reaction;
pub use subscription::NativeTarget;
pub use subscription::ObserveError;
pub use subscription::ObserveOptions;
pub use subscription::Subscription;
pub use subscription::TeardownEvent;
pub use transport::Action;
pub use transport::CallbackState;
pub use transport::Reaction;
pub use transport::Transport;
pub use transport::react;
