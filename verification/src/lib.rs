//! The data flow of a GPU unit simulation, as values.
//!
//! Thousands of units live in textures. Each frame a fixed sequence of render
//! passes reads their state from one texture and writes it to another:
//! evaluation, update, update of the large units; then four passes build a
//! minimap from the new state; then units and particles are drawn into the
//! deferred G-buffer; at last an overlay is laid over the finished image.
//!
//! This crate decides what each of those passes binds, what it draws into
//! and in which order the passes run, and it turns the player's input into
//! the command that the passes see. It touches no device: the passes, the
//! pipelines and the textures are described as values, and the renderer makes
//! of each description the object that it describes.
//!
//! - [`texture`]: the textures by name, and the descriptors of those that
//!   this crate allocates.
//! - [`bind_group_utils`]: layout entries, samplers, pipelines, attachments.
//! - [`render_pass`]: a render pass as a value, and what running one means.
//! - [`units`], [`minimap`], [`particles`], [`post_process`]: the nodes, each
//!   with its textures, its pipelines and its passes.
//! - [`frame`]: the context of a frame, its plan, and the laws that relate
//!   one frame to the next.
//! - [`graph`]: the order of the nodes in the render graph.
//! - [`validate`]: passes held against layouts and pipelines.
//! - [`input`]: from the player's input to the command of the frame.
//! - [`float_bits`]: single-precision numbers as bit patterns.

pub mod bind_group_utils;
pub mod float_bits;
pub mod frame;
pub mod graph;
pub mod input;
pub mod minimap;
pub mod particles;
pub mod post_process;
pub mod render_pass;
pub mod texture;
pub mod units;
pub mod validate;
