//! The pipeline registry: a fixed table from render-style keys to the GPU
//! handles that realize them.

use vstd::prelude::*;

verus! {

/// A render style, identifying one entry of the [`PipelineRegistry`].
///
/// Only `Line` is realized in the current scope; `Basic`, `Fill` and
/// `Overlay` are reserved keys for future styles and are never registered,
/// so they must not be looked up.
#[derive(Clone, Copy, PartialEq, Eq, Hash, Debug, Structural)]
pub enum ProgramKey {
    Basic,
    Fill,
    Line,
    Overlay,
}

/// The GPU resources of one render style: the linked shader program, its
/// vertex array and vertex buffer, and the attribute and uniform locations
/// resolved once at link time (position and normal attributes; transform,
/// model and stroke-width uniforms). The handles are opaque to the library;
/// it only stores and hands them out.
#[derive(Clone, Copy, PartialEq, Eq, Debug, Structural)]
pub struct PipelineEntry {
    pub program: u32,
    pub vao: u32,
    pub vbo: u32,
    pub position_attr: u32,
    pub normal_attr: u32,
    pub transform_uni: i32,
    pub model_uni: i32,
    pub width_uni: i32,
}

/// Maps each [`ProgramKey`] to the [`PipelineEntry`] registered for it, if
/// any. The key set is closed, so the table is a fixed set of slots rather
/// than a general map. It is populated once during initialization and never
/// mutated afterwards; looking up an unregistered key is a programming
/// error, ruled out by `lookup`'s precondition rather than by a silent
/// default.
pub struct PipelineRegistry {
    basic: Option<PipelineEntry>,
    fill: Option<PipelineEntry>,
    line: Option<PipelineEntry>,
    overlay: Option<PipelineEntry>,
}

impl PipelineRegistry {
    /// The entry registered under `key`, if any.
    pub closed spec fn spec_entry(&self, key: ProgramKey) -> Option<PipelineEntry> {
        match key {
            ProgramKey::Basic => self.basic,
            ProgramKey::Fill => self.fill,
            ProgramKey::Line => self.line,
            ProgramKey::Overlay => self.overlay,
        }
    }

    /// An empty registry: no key has an entry yet.
    pub fn new() -> (r: PipelineRegistry)
        ensures
            forall|k: ProgramKey| #[trigger] r.spec_entry(k) is None,
    {
        PipelineRegistry { basic: None, fill: None, line: None, overlay: None }
    }

    /// Registers `entry` under `key`, leaving every other key untouched.
    pub fn register(&mut self, key: ProgramKey, entry: PipelineEntry)
        ensures
            final(self).spec_entry(key) == Some(entry),
            forall|k: ProgramKey|
                k != key ==> #[trigger] final(self).spec_entry(k) == old(self).spec_entry(k),
    {
        match key {
            ProgramKey::Basic => {
                self.basic = Some(entry);
            }
            ProgramKey::Fill => {
                self.fill = Some(entry);
            }
            ProgramKey::Line => {
                self.line = Some(entry);
            }
            ProgramKey::Overlay => {
                self.overlay = Some(entry);
            }
        }
    }

    /// Whether an entry is registered under `key`.
    pub fn contains(&self, key: ProgramKey) -> (r: bool)
        ensures
            r == (self.spec_entry(key) is Some),
    {
        match key {
            ProgramKey::Basic => self.basic.is_some(),
            ProgramKey::Fill => self.fill.is_some(),
            ProgramKey::Line => self.line.is_some(),
            ProgramKey::Overlay => self.overlay.is_some(),
        }
    }

    /// The entry registered under `key`. Lookup never mutates the registry,
    /// and an unregistered key is excluded by precondition.
    pub fn lookup(&self, key: ProgramKey) -> (r: &PipelineEntry)
        requires
            self.spec_entry(key) is Some,
        ensures
            Some(*r) == self.spec_entry(key),
    {
        let slot = match key {
            ProgramKey::Basic => &self.basic,
            ProgramKey::Fill => &self.fill,
            ProgramKey::Line => &self.line,
            ProgramKey::Overlay => &self.overlay,
        };
        slot.as_ref().unwrap()
    }
}

} // verus!
