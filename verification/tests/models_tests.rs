use indexvoice::models::{default_catalog, EngineType, ModelInfo};

#[test]
fn test_cloud_model_descriptor() {
    let m = ModelInfo::cloud();
    assert_eq!(m.id, "cloud");
    assert_eq!(m.name, "OpenAI Cloud");
    assert_eq!(m.filename, "");
    assert!(m.url.is_none());
    assert_eq!(m.size_mb, 0);
    assert!(m.is_downloaded);
    assert!(!m.is_downloading);
    assert_eq!(m.partial_size, 0);
    assert!(!m.is_directory);
    assert_eq!(m.engine_type, EngineType::Cloud);
}

#[test]
fn test_parakeet_v3_descriptor() {
    let m = ModelInfo::parakeet_v3();
    assert_eq!(m.id, "parakeet-v3");
    assert_eq!(m.name, "Parakeet V3 (Recommended)");
    assert_eq!(m.filename, "parakeet-tdt-0.6b-v3-int8");
    assert_eq!(
        m.url.as_deref(),
        Some("https://huggingface.co/tanerror/parakeet-v3/resolve/main/parakeet-v3-int8.tar.gz")
    );
    assert_eq!(m.size_mb, 478);
    assert!(!m.is_downloaded);
    assert!(m.is_directory);
    assert_eq!(m.engine_type, EngineType::Parakeet);
}

#[test]
fn test_default_catalog_holds_both_models() {
    let catalog = default_catalog();
    assert_eq!(catalog.len(), 2);
    assert_eq!(catalog[0].id, "cloud");
    assert_eq!(catalog[1].id, "parakeet-v3");
}

#[test]
fn test_engine_type_default_is_cloud() {
    assert_eq!(EngineType::default(), EngineType::Cloud);
}

#[test]
fn test_model_info_clone_is_equal() {
    let m = ModelInfo::parakeet_v3();
    assert_eq!(m.clone(), m);
}
