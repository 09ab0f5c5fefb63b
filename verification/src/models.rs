//! The transcription model catalog: engine kinds, model descriptors, and the
//! built-in entries.
//!
//! The on-disk registry (download, extraction, file probing) lives with the
//! host; the library holds the descriptors the orchestrator reads when it
//! validates a selection and dispatches a transcription.

use vstd::prelude::*;

verus! {

/// Which engine serves a model.
#[derive(Debug, Clone, Copy, PartialEq, Eq, Structural)]
pub enum EngineType {
    /// The local Parakeet inference engine.
    Parakeet,
    /// The hosted transcription API.
    Cloud,
}

impl Default for EngineType {
    /// The cloud engine is the default.
    fn default() -> (r: Self)
        ensures
            r == EngineType::Cloud,
    {
        EngineType::Cloud
    }
}

/// Information about an available model.
#[derive(Debug, PartialEq)]
pub struct ModelInfo {
    /// Unique identifier for the model.
    pub id: String,
    /// Human-readable name.
    pub name: String,
    /// Description of the model's characteristics.
    pub description: String,
    /// Filename or directory name in the models folder.
    pub filename: String,
    /// Download URL (None for the cloud API).
    pub url: Option<String>,
    /// Approximate size in MB.
    pub size_mb: u64,
    /// Whether the model is downloaded and ready.
    pub is_downloaded: bool,
    /// Whether currently downloading.
    pub is_downloading: bool,
    /// Partial download size (for resume).
    pub partial_size: u64,
    /// Whether this is a directory-based model rather than a single file.
    pub is_directory: bool,
    /// The engine type for this model.
    pub engine_type: EngineType,
}

impl Clone for ModelInfo {
    /// A clone is equal to the original.
    fn clone(&self) -> (r: Self)
        ensures
            r == *self,
    {
        ModelInfo {
            id: self.id.clone(),
            name: self.name.clone(),
            description: self.description.clone(),
            filename: self.filename.clone(),
            url: match &self.url {
                Some(u) => Some(u.clone()),
                None => None,
            },
            size_mb: self.size_mb,
            is_downloaded: self.is_downloaded,
            is_downloading: self.is_downloading,
            partial_size: self.partial_size,
            is_directory: self.is_directory,
            engine_type: self.engine_type,
        }
    }
}

/// The descriptor of the cloud pseudo-model: always available, nothing on
/// disk, served by the cloud engine.
pub open spec fn is_cloud_model(m: ModelInfo) -> bool {
    &&& m.id@ == "cloud"@
    &&& m.name@ == "OpenAI Cloud"@
    &&& m.url is None
    &&& m.size_mb == 0
    &&& m.is_downloaded
    &&& !m.is_downloading
    &&& m.partial_size == 0
    &&& !m.is_directory
    &&& m.engine_type == EngineType::Cloud
}

/// The descriptor of the bundled local model: a directory-based download
/// served by the Parakeet engine, not yet downloaded.
pub open spec fn is_parakeet_v3_model(m: ModelInfo) -> bool {
    &&& m.id@ == "parakeet-v3"@
    &&& m.name@ == "Parakeet V3 (Recommended)"@
    &&& m.filename@ == "parakeet-tdt-0.6b-v3-int8"@
    &&& m.url matches Some(u)
        && u@ == "https://huggingface.co/tanerror/parakeet-v3/resolve/main/parakeet-v3-int8.tar.gz"@
    &&& m.size_mb == 478
    &&& !m.is_downloaded
    &&& !m.is_downloading
    &&& m.partial_size == 0
    &&& m.is_directory
    &&& m.engine_type == EngineType::Parakeet
}

impl ModelInfo {
    /// The cloud (hosted API) pseudo-model.
    pub fn cloud() -> (r: Self)
        ensures
            is_cloud_model(r),
    {
        ModelInfo {
            id: "cloud".to_owned(),
            name: "OpenAI Cloud".to_owned(),
            description:
                "Uses OpenAI's Whisper API. Requires internet and API key. Multi-language support.".to_owned(),
            filename: String::new(),
            url: None,
            size_mb: 0,
            is_downloaded: true,
            is_downloading: false,
            partial_size: 0,
            is_directory: false,
            engine_type: EngineType::Cloud,
        }
    }

    /// The bundled local Parakeet model.
    pub fn parakeet_v3() -> (r: Self)
        ensures
            is_parakeet_v3_model(r),
    {
        ModelInfo {
            id: "parakeet-v3".to_owned(),
            name: "Parakeet V3 (Recommended)".to_owned(),
            description:
                "English only. Best accuracy, latest version. Recommended for most users.".to_owned(),
            filename: "parakeet-tdt-0.6b-v3-int8".to_owned(),
            url: Some(
                "https://huggingface.co/tanerror/parakeet-v3/resolve/main/parakeet-v3-int8.tar.gz".to_owned(),
            ),
            size_mb: 478,
            is_downloaded: false,
            is_downloading: false,
            partial_size: 0,
            is_directory: true,
            engine_type: EngineType::Parakeet,
        }
    }
}

/// The first catalog entry whose id matches, if any.
pub open spec fn spec_find_model(models: Seq<ModelInfo>, id: Seq<char>) -> Option<ModelInfo>
    decreases models.len(),
{
    if models.len() == 0 {
        None
    } else if models.first().id@ == id {
        Some(models.first())
    } else {
        spec_find_model(models.drop_first(), id)
    }
}

/// Scanning past non-matching entries does not change the result.
pub proof fn lemma_find_model_skip(models: Seq<ModelInfo>, id: Seq<char>, i: int)
    requires
        0 <= i <= models.len(),
        forall|j: int| 0 <= j < i ==> models[j].id@ != id,
    ensures
        spec_find_model(models, id) == spec_find_model(models.skip(i), id),
    decreases i,
{
    if i > 0 {
        assert(models.drop_first() =~= models.skip(1));
        lemma_find_model_skip(models.skip(1), id, i - 1);
        assert(models.skip(1).skip(i - 1) =~= models.skip(i));
    } else {
        assert(models.skip(0) =~= models);
    }
}

/// The built-in catalog: the cloud pseudo-model and the bundled local model.
pub fn default_catalog() -> (r: Vec<ModelInfo>)
    ensures
        r@.len() == 2,
        is_cloud_model(r@[0]),
        is_parakeet_v3_model(r@[1]),
{
    let mut catalog: Vec<ModelInfo> = Vec::new();
    catalog.push(ModelInfo::cloud());
    catalog.push(ModelInfo::parakeet_v3());
    catalog
}

} // verus!
