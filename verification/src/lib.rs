//! Egui integration for the Bevy game engine: the input mapping, texture bookkeeping,
//! render planning and output handling of the integration, with their contracts.
use vstd::prelude::*;

pub mod contexts;
pub mod input;
pub mod keys;
pub mod modifiers;
pub mod node;
pub mod output;
pub mod render;
pub mod textures;
pub mod web;

verus! {

/// Adds all Egui resources and render graph nodes.
#[derive(Clone, Copy, Debug, Default, PartialEq, Eq)]
pub struct EguiPlugin;

/// The `bevy_egui` plugin startup system sets.
#[derive(Clone, Copy, Debug, PartialEq, Eq, Hash)]
pub enum EguiStartupSet {
    /// Initializes Egui contexts for available windows.
    InitContexts,
}

/// The `bevy_egui` plugin system sets.
#[derive(Clone, Copy, Debug, PartialEq, Eq, Hash)]
pub enum EguiSet {
    /// Initializes Egui contexts for newly created windows.
    InitContexts,
    /// Reads Egui inputs (keyboard, mouse, etc) and writes them into the egui input of
    /// each context.
    ProcessInput,
    /// Begins the `egui` frame.
    BeginFrame,
    /// Processes the egui output of each context.
    ProcessOutput,
}

/// The label of the egui pass of a window's render graph node: the window entity's index
/// and generation.
#[derive(Clone, Copy, Debug, PartialEq, Eq, Hash)]
pub struct EguiPass {
    /// Index of the window entity.
    pub entity_index: u32,
    /// Generation of the window entity.
    pub entity_generation: u32,
}

/// The label of the egui pass that renders a context into a texture: the target entity's
/// index and generation.
#[derive(Clone, Copy, Debug, PartialEq, Eq, Hash)]
pub struct EguiRenderToTexturePass {
    /// Index of the target entity.
    pub entity_index: u32,
    /// Generation of the target entity.
    pub entity_generation: u32,
}

impl EguiPass {
    /// The pass of the entity with the given index and generation.
    pub fn new(entity_index: u32, entity_generation: u32) -> (r: EguiPass)
        ensures
            r.entity_index == entity_index,
            r.entity_generation == entity_generation,
    {
        EguiPass { entity_index, entity_generation }
    }
}

impl EguiRenderToTexturePass {
    /// The pass of the entity with the given index and generation.
    pub fn new(entity_index: u32, entity_generation: u32) -> (r: EguiRenderToTexturePass)
        ensures
            r.entity_index == entity_index,
            r.entity_generation == entity_generation,
    {
        EguiRenderToTexturePass { entity_index, entity_generation }
    }
}

} // verus!
