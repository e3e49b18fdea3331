//! Portal-relevant facts normalized from the PipeWire graph.
use vstd::prelude::*;

verus! {

/// Version of the normalized `PipeWire` model.
pub const PIPEWIRE_MODEL_VERSION: u32 = 1;

/// Portal-relevant facts normalized from `pw-dump`. Counts describe the
/// complete graph; `nodes` and `links` hold only video-relevant topology.
#[derive(Debug, Clone, PartialEq, Eq)]
pub struct PipeWireInfo {
    pub model_version: u32,
    pub version: Option<String>,
    pub object_count: usize,
    pub node_count: usize,
    pub link_count: usize,
    pub portal_client_count: usize,
    pub screen_cast_source_count: usize,
    pub nodes: Vec<PipeWireNode>,
    pub links: Vec<PipeWireLink>,
}

/// Normalized video node properties.
#[derive(Debug, Clone, PartialEq, Eq)]
pub struct PipeWireNode {
    pub id: u64,
    pub media_class: Option<String>,
    pub state: Option<String>,
    pub is_video_source: bool,
    pub is_screen_cast_source: bool,
}

/// Normalized video link topology.
#[derive(Debug, Clone, PartialEq, Eq)]
pub struct PipeWireLink {
    pub id: u64,
    pub output_node_id: Option<u64>,
    pub input_node_id: Option<u64>,
    pub media_type: Option<String>,
    pub state: Option<String>,
}

/// Version of the normalized `WirePlumber` model.
pub const WIREPLUMBER_MODEL_VERSION: u32 = 1;

/// Portal-relevant health facts normalized from `wpctl status`.
#[derive(Debug, Clone, PartialEq, Eq)]
pub struct WirePlumberInfo {
    pub model_version: u32,
    pub pipewire_version: Option<String>,
    pub wireplumber_client_count: usize,
}

} // verus!
