//! Application information: version, encoder and graphics adapters.

use crate::utils::gpu_detector::{
    any_available, first_available, gpu_views, is_first_available, texts, GpuInfoView, GpuList,
};
use crate::utils::text::{decimal, decimal_text, opt_chars, prefixed};
use vstd::prelude::*;
use vstd::string::*;

verus! {

/// GPU information structure.
#[derive(Debug, PartialEq, Eq)]
pub struct GpuInfo {
    pub name: String,
    pub vendor: String,
    pub is_available: bool,
    pub supported_codecs: Vec<String>,
}

impl View for GpuInfo {
    type V = GpuInfoView;

    open spec fn view(&self) -> GpuInfoView {
        GpuInfoView {
            name: self.name@,
            vendor: self.vendor@,
            is_available: self.is_available,
            supported_codecs: texts(self.supported_codecs@),
        }
    }
}

/// A list of adapters, each read as its view.
pub open spec fn info_views(gpus: Seq<GpuInfo>) -> Seq<GpuInfoView> {
    gpus.map_values(|g: GpuInfo| g@)
}

/// Application information including GPU and FFmpeg version.
#[derive(Debug, PartialEq, Eq)]
pub struct AppInfo {
    pub app_version: String,
    pub ffmpeg_version: Option<String>,
    pub gpu_available: bool,
    pub gpus: Vec<GpuInfo>,
    /// -1 for CPU, 0 and up for a GPU.
    pub selected_gpu_index: i32,
}

/// An `AppInfo` with its strings read as characters.
pub struct AppInfoView {
    pub app_version: Seq<char>,
    pub ffmpeg_version: Option<Seq<char>>,
    pub gpu_available: bool,
    pub gpus: Seq<GpuInfoView>,
    pub selected_gpu_index: i32,
}

impl View for AppInfo {
    type V = AppInfoView;

    open spec fn view(&self) -> AppInfoView {
        AppInfoView {
            app_version: self.app_version@,
            ffmpeg_version: opt_chars(self.ffmpeg_version),
            gpu_available: self.gpu_available,
            gpus: info_views(self.gpus@),
            selected_gpu_index: self.selected_gpu_index,
        }
    }
}

/// The index selected at first: the first available adapter, or -1, the
/// CPU, where none is available.
pub open spec fn default_selection(gpus: Seq<GpuInfoView>) -> i32 {
    if any_available(gpus) {
        (choose|i: int| is_first_available(gpus, i)) as i32
    } else {
        -1i32
    }
}

/// The first available adapter is one place, whoever finds it.
pub proof fn lemma_first_available_unique(gpus: Seq<GpuInfoView>, i: int)
    requires
        is_first_available(gpus, i),
    ensures
        any_available(gpus),
        (choose|k: int| is_first_available(gpus, k)) == i,
{
    let c = choose|k: int| is_first_available(gpus, k);
    assert(is_first_available(gpus, c));
    assert(gpus[i].is_available && gpus[c].is_available);
}

/// The application information for the adapters that were detected.
pub open spec fn app_info_for(app_version: Seq<char>, gpus: Seq<GpuInfoView>) -> AppInfoView {
    AppInfoView {
        app_version,
        ffmpeg_version: Some("FFmpeg 7.1.0"@),
        gpu_available: any_available(gpus),
        gpus,
        selected_gpu_index: default_selection(gpus),
    }
}

/// The index selected at first.
pub fn select_default(gpus: &GpuList) -> (index: i32)
    ensures
        index == default_selection(gpus@),
{
    match first_available(&gpus.gpus) {
        Some(i) => {
            proof {
                lemma_first_available_unique(gpus@, i as int);
            }
            #[verifier::truncate]
            (i as i32)
        },
        None => -1,
    }
}

/// Get application information from the outcome of GPU detection: where
/// detection failed, its message is passed on; otherwise the first available
/// adapter is selected, or the CPU where none is available.
pub fn get_app_info(detected: Result<GpuList, String>, app_version: String) -> (r: Result<
    AppInfo,
    String,
>)
    ensures
        detected is Err ==> r is Err && r->Err_0@ == "Failed to detect GPU: "@
            + detected->Err_0@,
        detected is Ok ==> r is Ok && r->Ok_0@ == app_info_for(app_version@, detected->Ok_0@),
{
    let gpu_list = match detected {
        Ok(list) => list,
        Err(e) => {
            return Err(prefixed("Failed to detect GPU: ", e.as_str()));
        },
    };
    let selected_gpu_index = select_default(&gpu_list);
    let gpu_available = first_available(&gpu_list.gpus).is_some();
    let ghost found = gpu_list@;
    let mut gpus: Vec<GpuInfo> = Vec::new();
    let mut source = gpu_list.gpus;
    let mut i: usize = 0;
    while i < source.len()
        invariant
            i <= source.len(),
            gpus@.len() == i,
            gpu_views(source@) == found,
            forall|j: int| 0 <= j < i ==> (#[trigger] gpus@[j])@ == found[j],
        decreases source.len() - i,
    {
        assert(found[i as int] == source@[i as int]@);
        gpus.push(
            GpuInfo {
                name: source[i].name.clone(),
                vendor: source[i].vendor.clone(),
                is_available: source[i].is_available,
                supported_codecs: crate::utils::gpu_detector::clone_texts(
                    &source[i].supported_codecs,
                ),
            },
        );
        i += 1;
    }
    assert(info_views(gpus@) =~= found);
    Ok(
        AppInfo {
            app_version,
            ffmpeg_version: Some(String::from_str("FFmpeg 7.1.0")),
            gpu_available,
            gpus,
            selected_gpu_index,
        },
    )
}

/// Whether `gpu_index` is -1, the CPU, or the place of one of `count`
/// adapters.
pub open spec fn is_valid_gpu_index(gpu_index: i32, count: nat) -> bool {
    gpu_index == -1 || 0 <= gpu_index < count
}

/// Whether `gpu_index` is -1 or the place of one of `count` adapters.
pub fn check_gpu_index(gpu_index: i32, count: usize) -> (valid: bool)
    ensures
        valid == is_valid_gpu_index(gpu_index, count as nat),
{
    gpu_index == -1 || (gpu_index >= 0 && (gpu_index as usize) < count)
}

/// Select a GPU: the application information with the selection changed,
/// which the host then publishes. `detected` is the outcome of GPU
/// detection and `app_info` the application information got after it.
///
/// A failed detection, an index that names no adapter, and failed
/// application information each give their message, in this order.
pub fn set_gpu(
    gpu_index: i32,
    detected: Result<GpuList, String>,
    app_info: Result<AppInfo, String>,
) -> (r: Result<AppInfo, String>)
    ensures
        detected is Err ==> r is Err && r->Err_0@ == "Failed to detect GPU: "@
            + detected->Err_0@,
        detected is Ok && !is_valid_gpu_index(gpu_index, detected->Ok_0@.len()) ==> r is Err
            && r->Err_0@ == "Invalid GPU index: "@ + decimal_text(gpu_index as int),
        detected is Ok && is_valid_gpu_index(gpu_index, detected->Ok_0@.len()) && app_info is Err
            ==> r is Err && r->Err_0@ == "Failed to get app info: "@ + app_info->Err_0@,
        detected is Ok && is_valid_gpu_index(gpu_index, detected->Ok_0@.len()) && app_info is Ok
            ==> r is Ok && r->Ok_0@ == (AppInfoView {
            selected_gpu_index: gpu_index,
            ..app_info->Ok_0@
        }),
{
    let gpu_list = match detected {
        Ok(list) => list,
        Err(e) => {
            return Err(prefixed("Failed to detect GPU: ", e.as_str()));
        },
    };
    if !check_gpu_index(gpu_index, gpu_list.gpus.len()) {
        let number = decimal(gpu_index);
        return Err(prefixed("Invalid GPU index: ", number.as_str()));
    }
    let mut info = match app_info {
        Ok(info) => info,
        Err(e) => {
            return Err(prefixed("Failed to get app info: ", e.as_str()));
        },
    };
    info.selected_gpu_index = gpu_index;
    Ok(info)
}

} // verus!
