//! Core application state: encoder version and graphics adapters.

use crate::state::errors::{StateError, StateErrorView, StateResult};
use crate::utils::app_info::{default_selection, lemma_first_available_unique};
use crate::utils::gpu_detector::{
    any_available, clone_gpus, first_available, gpu_views, GpuInfo, GpuInfoView,
};
use crate::utils::text::{clone_opt, opt_chars};
use vstd::prelude::*;
use vstd::string::*;

verus! {

/// Core application state.
#[derive(Debug, PartialEq, Eq)]
pub struct AppState {
    pub is_initialized: bool,
    pub app_version: String,
    pub ffmpeg_version: Option<String>,
    pub gpu_available: bool,
    pub gpus: Vec<GpuInfo>,
    /// -1 for CPU, 0 and up for a GPU.
    pub selected_gpu_index: i32,
}

/// An `AppState` with its strings read as characters.
pub struct AppStateView {
    pub is_initialized: bool,
    pub app_version: Seq<char>,
    pub ffmpeg_version: Option<Seq<char>>,
    pub gpu_available: bool,
    pub gpus: Seq<GpuInfoView>,
    pub selected_gpu_index: i32,
}

impl View for AppState {
    type V = AppStateView;

    open spec fn view(&self) -> AppStateView {
        AppStateView {
            is_initialized: self.is_initialized,
            app_version: self.app_version@,
            ffmpeg_version: opt_chars(self.ffmpeg_version),
            gpu_available: self.gpu_available,
            gpus: gpu_views(self.gpus@),
            selected_gpu_index: self.selected_gpu_index,
        }
    }
}

/// Whether a selection has to fall back to the CPU: no GPU is available at
/// all, or the selected place holds no adapter, or one that is not
/// available.
pub open spec fn selection_is_stale(
    gpu_available: bool,
    gpus: Seq<GpuInfoView>,
    selected: i32,
) -> bool {
    !gpu_available || (selected >= 0 && (selected >= gpus.len()
        || !gpus[selected as int].is_available))
}

/// The selection after initialization: a stale one falls back to the CPU,
/// and from the CPU the first available adapter is taken where GPUs are
/// available.
pub open spec fn selection_after_init(
    gpu_available: bool,
    gpus: Seq<GpuInfoView>,
    selected: i32,
) -> i32 {
    let kept = if selection_is_stale(gpu_available, gpus, selected) {
        -1i32
    } else {
        selected
    };
    if gpu_available && kept == -1 && any_available(gpus) {
        default_selection(gpus)
    } else {
        kept
    }
}

impl Default for AppState {
    /// The state with every value at its default: nothing initialized, no
    /// text, no adapter, index 0.
    fn default() -> (state: AppState)
        ensures
            state@ == (AppStateView {
                is_initialized: false,
                app_version: Seq::empty(),
                ffmpeg_version: None,
                gpu_available: false,
                gpus: Seq::empty(),
                selected_gpu_index: 0,
            }),
    {
        let state = AppState {
            is_initialized: false,
            app_version: String::new(),
            ffmpeg_version: None,
            gpu_available: false,
            gpus: Vec::new(),
            selected_gpu_index: 0,
        };
        assert(state@.gpus =~= Seq::empty());
        state
    }
}

impl Clone for AppState {
    fn clone(&self) -> (copy: AppState)
        ensures
            copy@ == self@,
    {
        AppState {
            is_initialized: self.is_initialized,
            app_version: self.app_version.clone(),
            ffmpeg_version: clone_opt(&self.ffmpeg_version),
            gpu_available: self.gpu_available,
            gpus: clone_gpus(&self.gpus),
            selected_gpu_index: self.selected_gpu_index,
        }
    }
}

impl AppState {
    /// The state before initialization: the version is known, no adapter is,
    /// and the CPU is selected.
    pub fn new(app_version: String) -> (state: AppState)
        ensures
            state@ == (AppStateView {
                is_initialized: false,
                app_version: app_version@,
                ffmpeg_version: None,
                gpu_available: false,
                gpus: Seq::empty(),
                selected_gpu_index: -1i32,
            }),
    {
        let state = AppState {
            is_initialized: false,
            app_version,
            ffmpeg_version: None,
            gpu_available: false,
            gpus: Vec::new(),
            selected_gpu_index: -1,
        };
        assert(state@.gpus =~= Seq::empty());
        state
    }

    /// Initialize the state with what was found on the machine, and settle
    /// the selection: see `selection_after_init`.
    pub fn initialize(
        &mut self,
        ffmpeg_version: Option<String>,
        gpu_available: bool,
        gpus: Vec<GpuInfo>,
    )
        ensures
            final(self)@ == (AppStateView {
                is_initialized: true,
                app_version: old(self)@.app_version,
                ffmpeg_version: opt_chars(ffmpeg_version),
                gpu_available,
                gpus: gpu_views(gpus@),
                selected_gpu_index: selection_after_init(
                    gpu_available,
                    gpu_views(gpus@),
                    old(self)@.selected_gpu_index,
                ),
            }),
    {
        self.is_initialized = true;
        self.ffmpeg_version = ffmpeg_version;
        self.gpu_available = gpu_available;
        self.gpus = gpus;
        let selected = self.selected_gpu_index;
        let stale = if !gpu_available {
            true
        } else if selected >= 0 {
            if selected as usize >= self.gpus.len() {
                true
            } else {
                assert(gpu_views(self.gpus@)[selected as int] == self.gpus@[selected as int]@);
                !self.gpus[selected as usize].is_available
            }
        } else {
            false
        };
        if stale {
            self.selected_gpu_index = -1;
        }
        if gpu_available && self.selected_gpu_index == -1 {
            match first_available(&self.gpus) {
                Some(i) => {
                    proof {
                        lemma_first_available_unique(gpu_views(self.gpus@), i as int);
                    }
                    self.selected_gpu_index = #[verifier::truncate]
                    (i as i32);
                },
                None => {},
            }
        }
    }

    /// Select a GPU, or the CPU with -1. An index that names no adapter is
    /// refused and the state stays as it was.
    pub fn set_selected_gpu(&mut self, gpu_index: i32) -> (r: StateResult<()>)
        ensures
            gpu_index == -1 || 0 <= gpu_index < old(self)@.gpus.len() ==> r is Ok && final(self)@
                == (AppStateView { selected_gpu_index: gpu_index, ..old(self)@ }),
            !(gpu_index == -1 || 0 <= gpu_index < old(self)@.gpus.len()) ==> r is Err
                && r->Err_0@ == StateErrorView::InvalidGpuIndex(gpu_index) && final(self)@ == old(
                self,
            )@,
    {
        if gpu_index == -1 || (gpu_index >= 0 && (gpu_index as usize) < self.gpus.len()) {
            self.selected_gpu_index = gpu_index;
            Ok(())
        } else {
            Err(StateError::invalid_gpu_index(gpu_index))
        }
    }
}

} // verus!
