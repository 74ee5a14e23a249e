//! The decisions of the no-render paint subsystem: it renders nothing, but
//! answers key requests with placeholder keys so that script and layout keep
//! running.

use vstd::prelude::*;

verus! {

/// How far Servo's shutdown has gone (`ShutdownState`).
#[derive(Clone, Copy, Debug)]
pub enum ShutdownState {
    NotShuttingDown,
    ShuttingDown,
    FinishedShuttingDown,
}

/// A WebRender resource key: the namespace of the painter and the key's index.
#[derive(Clone, Copy, Debug)]
pub struct ResourceKey {
    pub namespace: u32,
    pub index: u32,
}

/// A request the paint subsystem receives, reduced to what it decides on.
pub enum PaintRequest {
    /// One image key for the painter with namespace `namespace`.
    GenerateImageKey { namespace: u32 },
    /// A batch of image keys for a pipeline, sent on to the constellation.
    GenerateImageKeysForPipeline { namespace: u32, batch_size: i64 },
    /// `fonts` font keys and `instances` font instance keys.
    GenerateFontKeys { namespace: u32, fonts: usize, instances: usize },
    /// A memory report.
    CollectMemoryReport,
    /// Anything else; ignored.
    Other,
}

/// What the paint subsystem sends back for a request.
pub enum PaintReply {
    ImageKey(ResourceKey),
    ImageKeysForPipeline(Vec<ResourceKey>),
    FontKeys(Vec<ResourceKey>, Vec<ResourceKey>),
    EmptyMemoryReport,
    Nothing,
}

/// A run of `count` placeholder keys of namespace `namespace`.
pub open spec fn placeholder_keys(keys: Seq<ResourceKey>, namespace: u32, count: int) -> bool {
    &&& keys.len() == count
    &&& forall|i: int| 0 <= i < keys.len() ==> #[trigger] keys[i] == (ResourceKey { namespace, index: 0 })
}

/// Whether the embedder should keep updating: until shutdown has finished.
pub fn perform_updates(state: ShutdownState) -> (r: bool)
    ensures
        r == !(state is FinishedShuttingDown),
{
    match state {
        ShutdownState::FinishedShuttingDown => false,
        _ => true,
    }
}

/// The placeholder image key of a painter.
pub fn dummy_image_key(namespace: u32) -> (r: ResourceKey)
    ensures
        r == (ResourceKey { namespace, index: 0 }),
{
    ResourceKey { namespace, index: 0 }
}

/// The placeholder font key of a painter.
pub fn dummy_font_key(namespace: u32) -> (r: ResourceKey)
    ensures
        r == (ResourceKey { namespace, index: 0 }),
{
    ResourceKey { namespace, index: 0 }
}

/// The placeholder font instance key of a painter.
pub fn dummy_font_instance_key(namespace: u32) -> (r: ResourceKey)
    ensures
        r == (ResourceKey { namespace, index: 0 }),
{
    ResourceKey { namespace, index: 0 }
}

fn placeholder_run(namespace: u32, count: usize) -> (r: Vec<ResourceKey>)
    ensures
        placeholder_keys(r@, namespace, count as int),
{
    let mut keys: Vec<ResourceKey> = Vec::new();
    let mut i: usize = 0;
    while i < count
        invariant
            i <= count,
            placeholder_keys(keys@, namespace, i as int),
        decreases count - i,
    {
        keys.push(dummy_image_key(namespace));
        i = i + 1;
    }
    keys
}

/// The image keys sent for a pipeline: one placeholder per key of the batch
/// (none when the batch size is not positive).
pub fn dummy_image_keys_for_pipeline(namespace: u32, batch_size: i64) -> (r: Vec<ResourceKey>)
    requires
        batch_size <= usize::MAX,
    ensures
        placeholder_keys(r@, namespace, if batch_size < 0 { 0 } else { batch_size as int }),
{
    let count: usize = if batch_size < 0 {
        0
    } else {
        batch_size as usize
    };
    placeholder_run(namespace, count)
}

/// The reply to a paint request.
pub fn handle_message(request: PaintRequest) -> (r: PaintReply)
    requires
        request matches PaintRequest::GenerateImageKeysForPipeline { batch_size, .. } ==> batch_size <= usize::MAX,
    ensures
        match request {
            PaintRequest::GenerateImageKey { namespace } => r matches PaintReply::ImageKey(k) && k == (ResourceKey { namespace, index: 0 }),
            PaintRequest::GenerateImageKeysForPipeline { namespace, batch_size } => r matches PaintReply::ImageKeysForPipeline(keys)
                && placeholder_keys(keys@, namespace, if batch_size < 0 { 0 } else { batch_size as int }),
            PaintRequest::GenerateFontKeys { namespace, fonts, instances } => r matches PaintReply::FontKeys(f, i)
                && placeholder_keys(f@, namespace, fonts as int) && placeholder_keys(i@, namespace, instances as int),
            PaintRequest::CollectMemoryReport => r is EmptyMemoryReport,
            PaintRequest::Other => r is Nothing,
        },
{
    match request {
        PaintRequest::GenerateImageKey { namespace } => PaintReply::ImageKey(dummy_image_key(namespace)),
        PaintRequest::GenerateImageKeysForPipeline { namespace, batch_size } => PaintReply::ImageKeysForPipeline(
            dummy_image_keys_for_pipeline(namespace, batch_size),
        ),
        PaintRequest::GenerateFontKeys { namespace, fonts, instances } => PaintReply::FontKeys(
            placeholder_run(namespace, fonts),
            placeholder_run(namespace, instances),
        ),
        PaintRequest::CollectMemoryReport => PaintReply::EmptyMemoryReport,
        PaintRequest::Other => PaintReply::Nothing,
    }
}

} // verus!
