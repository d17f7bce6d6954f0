//! Frame orchestration and resource-lifetime core for a real-time renderer.
//!
//! The library models the state that a render loop must keep consistent while
//! the GPU works asynchronously: a fixed ring of in-flight frames, a swapchain
//! that is renegotiated on resize or staleness, a growable descriptor-set
//! allocator, a blocking immediate-submission path, and the ordered teardown
//! protocol that binds them. Every state transition carries a contract, so the
//! synchronization and lifetime rules are machine-checked rather than implied.
//!
//! Driver code performs the actual device calls and feeds their outcomes
//! (fence waits, acquire and present results) into the transition functions
//! defined here.

pub mod barriers;
pub mod descriptors;
pub mod engine;
pub mod frames;
pub mod immediate;
pub mod material;
pub mod mesh;
pub mod swapchain;
pub mod teardown;
pub mod texture;
pub mod version;
