use vid_kit_simple::preset_manager::{ConversionPreset, PresetManager};

// The presets that exist are held in a list here; on disk each is a file.
#[test]
fn test_create_default_presets() {
    let mut loaded_presets: Vec<ConversionPreset> = Vec::new();

    loaded_presets.extend(PresetManager::create_default_presets(
        loaded_presets.len(),
        "2023-05-15T10:00:00Z",
    ));
    assert!(!loaded_presets.is_empty(), "Should have default presets");

    let preset_ids: Vec<String> = loaded_presets.iter().map(|p| p.id.clone()).collect();
    assert!(preset_ids.contains(&"default_mp4".to_string()));
    assert!(preset_ids.contains(&"high_quality".to_string()));
    assert!(preset_ids.contains(&"web_optimized".to_string()));

    let mut loaded_presets_after: Vec<ConversionPreset> = loaded_presets.clone();
    loaded_presets_after.extend(PresetManager::create_default_presets(
        loaded_presets_after.len(),
        "2023-05-16T10:00:00Z",
    ));
    assert_eq!(
        loaded_presets.len(),
        loaded_presets_after.len(),
        "Should not create more presets if they already exist"
    );
    assert_eq!(loaded_presets, loaded_presets_after);
}

#[test]
fn preset_files_are_named_after_the_preset() {
    assert_eq!(PresetManager::preset_file_name("test_preset"), "test_preset.json");
    assert_eq!(PresetManager::preset_file_name("to_delete"), "to_delete.json");
}
