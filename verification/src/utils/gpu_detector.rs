//! What is known of the graphics adapters of the machine.
//!
//! The host enumerates the adapters and asks the encoder which codecs it
//! has. What is made of the answers is decided here.

use vstd::prelude::*;
use vstd::string::*;

verus! {

/// One graphics adapter and the hardware codecs found for it.
#[derive(Debug, PartialEq, Eq)]
pub struct GpuInfo {
    pub name: String,
    pub vendor: String,
    pub is_available: bool,
    pub supported_codecs: Vec<String>,
}

/// The adapters of the machine.
#[derive(Debug, PartialEq, Eq)]
pub struct GpuList {
    pub gpus: Vec<GpuInfo>,
}

/// A `GpuInfo` with its strings read as characters.
pub struct GpuInfoView {
    pub name: Seq<char>,
    pub vendor: Seq<char>,
    pub is_available: bool,
    pub supported_codecs: Seq<Seq<char>>,
}

/// A list of strings, each read as its characters.
pub open spec fn texts(list: Seq<String>) -> Seq<Seq<char>> {
    list.map_values(|s: String| s@)
}

impl View for GpuInfo {
    type V = GpuInfoView;

    open spec fn view(&self) -> GpuInfoView {
        GpuInfoView {
            name: self.name@,
            vendor: self.vendor@,
            is_available: self.is_available,
            supported_codecs: texts(self.supported_codecs@),
        }
    }
}

/// A list of adapters, each read as its view.
pub open spec fn gpu_views(gpus: Seq<GpuInfo>) -> Seq<GpuInfoView> {
    gpus.map_values(|g: GpuInfo| g@)
}

impl View for GpuList {
    type V = Seq<GpuInfoView>;

    open spec fn view(&self) -> Seq<GpuInfoView> {
        gpu_views(self.gpus@)
    }
}

/// Copies a list of strings.
pub fn clone_texts(list: &Vec<String>) -> (copy: Vec<String>)
    ensures
        texts(copy@) == texts(list@),
{
    let mut copy: Vec<String> = Vec::new();
    let mut i: usize = 0;
    while i < list.len()
        invariant
            i <= list.len(),
            copy@.len() == i,
            forall|j: int| 0 <= j < i ==> (#[trigger] copy@[j])@ == list@[j]@,
        decreases list.len() - i,
    {
        copy.push(list[i].clone());
        i += 1;
    }
    assert(texts(copy@) =~= texts(list@));
    copy
}

impl Clone for GpuInfo {
    fn clone(&self) -> (copy: GpuInfo)
        ensures
            copy@ == self@,
    {
        GpuInfo {
            name: self.name.clone(),
            vendor: self.vendor.clone(),
            is_available: self.is_available,
            supported_codecs: clone_texts(&self.supported_codecs),
        }
    }
}

/// Copies a list of adapters.
pub fn clone_gpus(gpus: &Vec<GpuInfo>) -> (copy: Vec<GpuInfo>)
    ensures
        gpu_views(copy@) == gpu_views(gpus@),
{
    let mut copy: Vec<GpuInfo> = Vec::new();
    let mut i: usize = 0;
    while i < gpus.len()
        invariant
            i <= gpus.len(),
            copy@.len() == i,
            forall|j: int| 0 <= j < i ==> (#[trigger] copy@[j])@ == gpus@[j]@,
        decreases gpus.len() - i,
    {
        copy.push(gpus[i].clone());
        i += 1;
    }
    assert(gpu_views(copy@) =~= gpu_views(gpus@));
    copy
}

/// The name of the vendor with this PCI vendor id.
pub open spec fn spec_vendor_name(vendor_id: usize) -> Seq<char> {
    if vendor_id == 0x10DE {
        "NVIDIA"@
    } else if vendor_id == 0x8086 {
        "Intel"@
    } else if vendor_id == 0x1002 {
        "AMD"@
    } else {
        "Unknown"@
    }
}

/// The hardware codecs to ask the encoder for, by vendor.
pub open spec fn spec_codecs_to_probe(vendor_id: usize) -> Seq<Seq<char>> {
    if vendor_id == 0x10DE {
        seq!["h264_nvenc"@, "hevc_nvenc"@, "scale_cuda"@]
    } else if vendor_id == 0x8086 {
        seq!["h264_qsv"@]
    } else if vendor_id == 0x1002 {
        seq!["h264_amf"@]
    } else {
        Seq::empty()
    }
}

/// The name of the vendor with this PCI vendor id.
pub fn vendor_name(vendor_id: usize) -> (name: String)
    ensures
        name@ == spec_vendor_name(vendor_id),
{
    if vendor_id == 0x10DE {
        String::from_str("NVIDIA")
    } else if vendor_id == 0x8086 {
        String::from_str("Intel")
    } else if vendor_id == 0x1002 {
        String::from_str("AMD")
    } else {
        String::from_str("Unknown")
    }
}

/// The hardware codecs to ask the encoder for, by vendor, in the order in
/// which they are asked for.
pub fn codecs_to_probe(vendor_id: usize) -> (codecs: Vec<String>)
    ensures
        texts(codecs@) == spec_codecs_to_probe(vendor_id),
{
    let mut codecs: Vec<String> = Vec::new();
    if vendor_id == 0x10DE {
        codecs.push(String::from_str("h264_nvenc"));
        codecs.push(String::from_str("hevc_nvenc"));
        codecs.push(String::from_str("scale_cuda"));
    } else if vendor_id == 0x8086 {
        codecs.push(String::from_str("h264_qsv"));
    } else if vendor_id == 0x1002 {
        codecs.push(String::from_str("h264_amf"));
    }
    assert(texts(codecs@) =~= spec_codecs_to_probe(vendor_id));
    codecs
}

impl GpuInfo {
    /// The record of an adapter once the encoder was asked: it is available
    /// when at least one of its codecs was found.
    pub fn from_probe(name: String, vendor_id: usize, supported_codecs: Vec<String>) -> (gpu:
        GpuInfo)
        ensures
            gpu@ == (GpuInfoView {
                name: name@,
                vendor: spec_vendor_name(vendor_id),
                is_available: supported_codecs@.len() > 0,
                supported_codecs: texts(supported_codecs@),
            }),
    {
        let is_available = supported_codecs.len() > 0;
        GpuInfo { name, vendor: vendor_name(vendor_id), is_available, supported_codecs }
    }
}

/// The one entry that stands for a machine without any adapter.
pub open spec fn cpu_only() -> GpuInfoView {
    GpuInfoView {
        name: "CPU Only"@,
        vendor: "None"@,
        is_available: false,
        supported_codecs: Seq::empty(),
    }
}

impl GpuList {
    /// The list for a machine without any adapter: one entry, not available.
    pub fn cpu_only() -> (list: GpuList)
        ensures
            list@ == seq![cpu_only()],
    {
        let mut gpus: Vec<GpuInfo> = Vec::new();
        let entry = GpuInfo {
            name: String::from_str("CPU Only"),
            vendor: String::from_str("None"),
            is_available: false,
            supported_codecs: Vec::new(),
        };
        assert(entry@.supported_codecs =~= Seq::empty());
        gpus.push(entry);
        let list = GpuList { gpus };
        assert(list@ =~= seq![cpu_only()]);
        list
    }
}

/// Whether some adapter is available.
pub open spec fn any_available(gpus: Seq<GpuInfoView>) -> bool {
    exists|i: int| 0 <= i < gpus.len() && (#[trigger] gpus[i]).is_available
}

/// Whether `i` is the place of the first available adapter.
pub open spec fn is_first_available(gpus: Seq<GpuInfoView>, i: int) -> bool {
    &&& 0 <= i < gpus.len()
    &&& gpus[i].is_available
    &&& forall|j: int| 0 <= j < i ==> !(#[trigger] gpus[j]).is_available
}

/// The place of the first available adapter, if there is one.
pub fn first_available(gpus: &Vec<GpuInfo>) -> (r: Option<usize>)
    ensures
        r is Some <==> any_available(gpu_views(gpus@)),
        r is Some ==> is_first_available(gpu_views(gpus@), r->0 as int),
{
    let mut i: usize = 0;
    while i < gpus.len()
        invariant
            i <= gpus.len(),
            forall|j: int| 0 <= j < i ==> !(#[trigger] gpus@[j]).is_available,
        decreases gpus.len() - i,
    {
        if gpus[i].is_available {
            proof {
                let views = gpu_views(gpus@);
                assert(views[i as int] == gpus@[i as int]@);
                assert forall|j: int| 0 <= j < i implies !(#[trigger] views[j]).is_available by {
                    assert(views[j] == gpus@[j]@);
                }
            }
            return Some(i);
        }
        i += 1;
    }
    proof {
        let views = gpu_views(gpus@);
        assert forall|j: int| 0 <= j < views.len() implies !(#[trigger] views[j]).is_available by {
            assert(views[j] == gpus@[j]@);
        }
    }
    None
}

} // verus!
