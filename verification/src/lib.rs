//! Hati plans the work of a tiled deferred renderer on an explicit GPU API.
//!
//! The library owns the bookkeeping that must not go wrong: which descriptor
//! slots are taken, where each submesh lies in the buffers of the scene, which
//! commands make up a frame and in which states they find their targets, and
//! how far the CPU may run ahead of the GPU. It never touches a device. What
//! it plans it hands out as plain values: descriptions of the resources and
//! descriptors to create, lists of commands to execute, and bytes to write.
//!
//! * [`descriptor`] hands out slots of the two shader-visible descriptor heaps.
//! * [`engine`] is the device context: frame latency, descriptor heaps, and the
//!   tables of resources and descriptors that were asked for.
//! * [`gpu`] holds the plain descriptions of resources, views and commands.
//! * [`swapchain`] describes the presentable images.
//! * [`pass`] describes the three passes and configures the pipeline.
//! * [`scene`] holds entities and assets and loads imported scenes.
//! * [`layout`] lays values out as the bytes the GPU reads.
//! * [`frame`] records a frame and follows the states of its targets.
//! * [`binding`] follows the signatures a command list binds against.
//! * [`sync`] paces the frames against the present fence.

pub mod binding;
pub mod descriptor;
pub mod engine;
pub mod frame;
pub mod gpu;
pub mod layout;
pub mod pass;
pub mod scene;
pub mod swapchain;
pub mod sync;
