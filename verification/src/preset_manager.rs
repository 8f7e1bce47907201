//! Conversion presets: what a preset holds, under which file name it is
//! kept, and the presets a new installation starts with. Reading and
//! writing the files is the host's part.

use crate::utils::text::{clone_opt, opt_chars, prefixed};
use vstd::prelude::*;
use vstd::string::*;

verus! {

/// Resolution options for video conversion.
#[derive(Debug, Clone, Copy, PartialEq, Eq, Structural)]
pub enum Resolution {
    Original,
    Preset { width: u32, height: u32 },
    Custom { width: u32, height: u32 },
}

/// A preset for video conversion with configurable parameters.
#[derive(Debug, PartialEq, Eq)]
pub struct ConversionPreset {
    pub id: String,
    pub name: String,
    pub description: Option<String>,
    pub output_format: String,
    pub resolution: Resolution,
    pub bitrate: Option<u32>,
    pub fps: Option<u32>,
    pub codec: Option<String>,
    pub use_gpu: bool,
    pub audio_codec: Option<String>,
    pub created_at: String,
    pub updated_at: String,
}

/// A `ConversionPreset` with its strings read as characters.
pub struct PresetView {
    pub id: Seq<char>,
    pub name: Seq<char>,
    pub description: Option<Seq<char>>,
    pub output_format: Seq<char>,
    pub resolution: Resolution,
    pub bitrate: Option<u32>,
    pub fps: Option<u32>,
    pub codec: Option<Seq<char>>,
    pub use_gpu: bool,
    pub audio_codec: Option<Seq<char>>,
    pub created_at: Seq<char>,
    pub updated_at: Seq<char>,
}

impl View for ConversionPreset {
    type V = PresetView;

    open spec fn view(&self) -> PresetView {
        PresetView {
            id: self.id@,
            name: self.name@,
            description: opt_chars(self.description),
            output_format: self.output_format@,
            resolution: self.resolution,
            bitrate: self.bitrate,
            fps: self.fps,
            codec: opt_chars(self.codec),
            use_gpu: self.use_gpu,
            audio_codec: opt_chars(self.audio_codec),
            created_at: self.created_at@,
            updated_at: self.updated_at@,
        }
    }
}

impl Clone for ConversionPreset {
    fn clone(&self) -> (copy: ConversionPreset)
        ensures
            copy@ == self@,
    {
        ConversionPreset {
            id: self.id.clone(),
            name: self.name.clone(),
            description: clone_opt(&self.description),
            output_format: self.output_format.clone(),
            resolution: self.resolution,
            bitrate: self.bitrate,
            fps: self.fps,
            codec: clone_opt(&self.codec),
            use_gpu: self.use_gpu,
            audio_codec: clone_opt(&self.audio_codec),
            created_at: self.created_at.clone(),
            updated_at: self.updated_at.clone(),
        }
    }
}

/// One of the presets a new installation starts with: an MP4 preset with
/// H.264 video and AAC audio, created and updated at `now`.
pub open spec fn default_preset(
    id: Seq<char>,
    name: Seq<char>,
    description: Seq<char>,
    resolution: Resolution,
    bitrate: u32,
    fps: Option<u32>,
    use_gpu: bool,
    now: Seq<char>,
) -> PresetView {
    PresetView {
        id,
        name,
        description: Some(description),
        output_format: "mp4"@,
        resolution,
        bitrate: Some(bitrate),
        fps,
        codec: Some("libx264"@),
        use_gpu,
        audio_codec: Some("aac"@),
        created_at: now,
        updated_at: now,
    }
}

/// The three presets a new installation starts with.
pub open spec fn default_presets_at(now: Seq<char>) -> Seq<PresetView> {
    seq![
        default_preset(
            "default_mp4"@,
            "Default MP4"@,
            "Standard MP4 conversion with H.264"@,
            Resolution::Original,
            8000,
            None,
            false,
            now,
        ),
        default_preset(
            "high_quality"@,
            "High Quality"@,
            "High quality conversion with H.264"@,
            Resolution::Preset { width: 1920, height: 1080 },
            12000,
            Some(60u32),
            true,
            now,
        ),
        default_preset(
            "web_optimized"@,
            "Web Optimized"@,
            "Optimized for web streaming"@,
            Resolution::Preset { width: 1280, height: 720 },
            5000,
            Some(30u32),
            false,
            now,
        ),
    ]
}

/// A list of presets, each read as its view.
pub open spec fn preset_views(presets: Seq<ConversionPreset>) -> Seq<PresetView> {
    presets.map_values(|p: ConversionPreset| p@)
}

/// One default preset.
fn make_default(
    id: &str,
    name: &str,
    description: &str,
    resolution: Resolution,
    bitrate: u32,
    fps: Option<u32>,
    use_gpu: bool,
    now: &str,
) -> (preset: ConversionPreset)
    ensures
        preset@ == default_preset(
            id@,
            name@,
            description@,
            resolution,
            bitrate,
            fps,
            use_gpu,
            now@,
        ),
{
    ConversionPreset {
        id: String::from_str(id),
        name: String::from_str(name),
        description: Some(String::from_str(description)),
        output_format: String::from_str("mp4"),
        resolution,
        bitrate: Some(bitrate),
        fps,
        codec: Some(String::from_str("libx264")),
        use_gpu,
        audio_codec: Some(String::from_str("aac")),
        created_at: String::from_str(now),
        updated_at: String::from_str(now),
    }
}

/// The three presets a new installation starts with, stamped with `now`.
pub fn default_presets(now: &str) -> (presets: Vec<ConversionPreset>)
    ensures
        preset_views(presets@) == default_presets_at(now@),
{
    let mut presets: Vec<ConversionPreset> = Vec::new();
    presets.push(
        make_default(
            "default_mp4",
            "Default MP4",
            "Standard MP4 conversion with H.264",
            Resolution::Original,
            8000,
            None,
            false,
            now,
        ),
    );
    presets.push(
        make_default(
            "high_quality",
            "High Quality",
            "High quality conversion with H.264",
            Resolution::Preset { width: 1920, height: 1080 },
            12000,
            Some(60),
            true,
            now,
        ),
    );
    presets.push(
        make_default(
            "web_optimized",
            "Web Optimized",
            "Optimized for web streaming",
            Resolution::Preset { width: 1280, height: 720 },
            5000,
            Some(30),
            false,
            now,
        ),
    );
    assert(preset_views(presets@) =~= default_presets_at(now@));
    presets
}

/// Knows where presets are kept.
#[derive(Debug, PartialEq, Eq)]
pub struct PresetManager {
    presets_dir: String,
}

impl PresetManager {
    /// The directory of the presets, as the text of its path.
    pub closed spec fn dir(&self) -> Seq<char> {
        self.presets_dir@
    }

    /// A manager for the presets under `presets_dir`.
    pub fn new(presets_dir: String) -> (manager: PresetManager)
        ensures
            manager.dir() == presets_dir@,
    {
        PresetManager { presets_dir }
    }

    /// The directory of the presets.
    pub fn presets_dir(&self) -> (dir: &str)
        ensures
            dir@ == self.dir(),
    {
        self.presets_dir.as_str()
    }

    /// The name of the file that keeps the preset `id`: the id and `.json`.
    pub fn preset_file_name(id: &str) -> (name: String)
        ensures
            name@ == id@ + ".json"@,
    {
        prefixed(id, ".json")
    }

    /// The presets to write when defaults are asked for: the three defaults
    /// where no preset exists yet, and none otherwise.
    pub fn create_default_presets(existing: usize, now: &str) -> (presets: Vec<ConversionPreset>)
        ensures
            existing == 0 ==> preset_views(presets@) == default_presets_at(now@),
            existing != 0 ==> presets@.len() == 0,
    {
        if existing != 0 {
            return Vec::new();
        }
        default_presets(now)
    }
}

} // verus!
