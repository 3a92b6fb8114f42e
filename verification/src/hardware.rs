//! Compute devices and memory pools: the device catalogue, preference-driven
//! device selection, and the snapshot of host and accelerator memory that the
//! resource validator consumes.

use vstd::prelude::*;

use crate::config::DevicePreference;

verus! {

/// Kind of compute device the engine can run on.
#[derive(Debug, Clone, Copy, PartialEq, Eq, Structural)]
pub enum DeviceType {
    CPU,
    GPU,
    NPU,
    Unknown,
}

/// One compute device visible to the engine.
#[derive(Debug, Clone)]
pub struct DeviceInfo {
    pub name: String,
    pub device_type: DeviceType,
    pub available: bool,
}

/// Host and accelerator memory at one instant. Byte counts come from an
/// external probe; the snapshot is taken fresh for every validation.
#[derive(Debug, Clone)]
pub struct SystemResources {
    pub total_ram_bytes: u64,
    pub available_ram_bytes: u64,
    pub gpu_resources: Vec<GpuResource>,
}

/// One accelerator memory pool.
#[derive(Debug, Clone)]
pub struct GpuResource {
    pub name: String,
    pub total_vram_bytes: u64,
    pub available_vram_bytes: u64,
    pub device_type: DeviceType,
}

/// The device catalogue: the host processor is always present; a render
/// device, when the caller has observed one, is listed as a graphics device.
pub fn detect_devices(has_render_device: bool) -> (r: Vec<DeviceInfo>)
    ensures
        r@.len() == (if has_render_device {
            2int
        } else {
            1int
        }),
        r@[0].name@ == "CPU"@,
        r@[0].device_type == DeviceType::CPU,
        r@[0].available,
        has_render_device ==> r@[1].name@ == "GPU"@ && r@[1].device_type == DeviceType::GPU
            && r@[1].available,
{
    let mut devices: Vec<DeviceInfo> = Vec::new();
    devices.push(
        DeviceInfo { name: "CPU".to_owned(), device_type: DeviceType::CPU, available: true },
    );
    if has_render_device {
        devices.push(
            DeviceInfo { name: "GPU".to_owned(), device_type: DeviceType::GPU, available: true },
        );
    }
    devices
}

/// True when some listed device has the wanted type and is available.
pub open spec fn spec_has_device(devices: Seq<DeviceInfo>, device_type: DeviceType) -> bool {
    exists|i: int|
        0 <= i < devices.len() && (#[trigger] devices[i]).device_type == device_type
            && devices[i].available
}

/// Index of the first available device of the wanted type.
pub open spec fn spec_first_device(devices: Seq<DeviceInfo>, device_type: DeviceType) -> int {
    choose|i: int|
        0 <= i < devices.len() && (#[trigger] devices[i]).device_type == device_type
            && devices[i].available && (forall|j: int|
            0 <= j < i ==> !((#[trigger] devices[j]).device_type == device_type
                && devices[j].available))
}

/// The index `spec_first_device` picks is the least matching one; any index
/// that matches and has no earlier match is that index.
proof fn lemma_first_device_unique(devices: Seq<DeviceInfo>, device_type: DeviceType, i: int)
    requires
        0 <= i < devices.len(),
        devices[i].device_type == device_type,
        devices[i].available,
        forall|j: int|
            0 <= j < i ==> !((#[trigger] devices[j]).device_type == device_type
                && devices[j].available),
    ensures
        spec_first_device(devices, device_type) == i,
{
    assert(0 <= i < devices.len() && (#[trigger] devices[i]).device_type == device_type
        && devices[i].available && (forall|j: int|
        0 <= j < i ==> !((#[trigger] devices[j]).device_type == device_type
            && devices[j].available)));
    let c = spec_first_device(devices, device_type);
    if c < i {
        assert(!(devices[c].device_type == device_type && devices[c].available));
    } else if c > i {
        assert(!(devices[i].device_type == device_type && devices[i].available));
    }
}

/// Name of the first available device of the given type, if any.
pub fn find_device_by_type(devices: &Vec<DeviceInfo>, device_type: DeviceType) -> (r: Option<
    String,
>)
    ensures
        r is Some <==> spec_has_device(devices@, device_type),
        r matches Some(name) ==> {
            let i = spec_first_device(devices@, device_type);
            0 <= i < devices@.len() && devices@[i].device_type == device_type
                && devices@[i].available && name@ == devices@[i].name@
        },
{
    let n = devices.len();
    let mut i: usize = 0;
    while i < n
        invariant
            i <= n,
            n == devices@.len(),
            forall|j: int|
                0 <= j < i ==> !((#[trigger] devices@[j]).device_type == device_type
                    && devices@[j].available),
        decreases n - i,
    {
        if devices[i].device_type == device_type && devices[i].available {
            proof {
                lemma_first_device_unique(devices@, device_type, i as int);
            }
            return Some(devices[i].name.clone());
        }
        i = i + 1;
    }
    None
}

/// The fastest available device, preferring graphics, then neural, then the
/// host processor; falls back to the first listed device of any kind.
pub fn select_fastest_device(devices: &Vec<DeviceInfo>) -> (r: Option<String>)
    ensures
        r is Some <==> (spec_has_device(devices@, DeviceType::GPU) || spec_has_device(
            devices@,
            DeviceType::NPU,
        ) || spec_has_device(devices@, DeviceType::CPU) || devices@.len() > 0),
        spec_has_device(devices@, DeviceType::GPU) ==> (r matches Some(name) && name@
            == devices@[spec_first_device(devices@, DeviceType::GPU)].name@),
        !spec_has_device(devices@, DeviceType::GPU) && spec_has_device(devices@, DeviceType::NPU)
            ==> (r matches Some(name) && name@ == devices@[spec_first_device(
            devices@,
            DeviceType::NPU,
        )].name@),
        !spec_has_device(devices@, DeviceType::GPU) && !spec_has_device(devices@, DeviceType::NPU)
            && spec_has_device(devices@, DeviceType::CPU) ==> (r matches Some(name) && name@
            == devices@[spec_first_device(devices@, DeviceType::CPU)].name@),
        !spec_has_device(devices@, DeviceType::GPU) && !spec_has_device(devices@, DeviceType::NPU)
            && !spec_has_device(devices@, DeviceType::CPU) && devices@.len() > 0 ==> (r matches
        Some(name) && name@ == devices@[0].name@),
{
    let gpu = find_device_by_type(devices, DeviceType::GPU);
    if gpu.is_some() {
        return gpu;
    }
    let npu = find_device_by_type(devices, DeviceType::NPU);
    if npu.is_some() {
        return npu;
    }
    let cpu = find_device_by_type(devices, DeviceType::CPU);
    if cpu.is_some() {
        return cpu;
    }
    if devices.len() > 0 {
        return Some(devices[0].name.clone());
    }
    None
}

/// The device the user's preference selects from the catalogue, if any.
pub fn select_best_device(devices: &Vec<DeviceInfo>, preference: &DevicePreference) -> (r: Option<
    String,
>)
    ensures
        preference == DevicePreference::GPU ==> (r is Some <==> spec_has_device(
            devices@,
            DeviceType::GPU,
        )) && (r matches Some(name) ==> name@ == devices@[spec_first_device(
            devices@,
            DeviceType::GPU,
        )].name@),
        preference == DevicePreference::NPU ==> (r is Some <==> spec_has_device(
            devices@,
            DeviceType::NPU,
        )) && (r matches Some(name) ==> name@ == devices@[spec_first_device(
            devices@,
            DeviceType::NPU,
        )].name@),
        preference == DevicePreference::CPU ==> (r is Some <==> spec_has_device(
            devices@,
            DeviceType::CPU,
        )) && (r matches Some(name) ==> name@ == devices@[spec_first_device(
            devices@,
            DeviceType::CPU,
        )].name@),
        preference == DevicePreference::Auto ==> (r is Some <==> (spec_has_device(
            devices@,
            DeviceType::GPU,
        ) || spec_has_device(devices@, DeviceType::NPU) || spec_has_device(
            devices@,
            DeviceType::CPU,
        ) || devices@.len() > 0)),
        preference == DevicePreference::Auto && spec_has_device(devices@, DeviceType::GPU) ==> (r
        matches Some(name) && name@ == devices@[spec_first_device(
            devices@,
            DeviceType::GPU,
        )].name@),
        preference == DevicePreference::Auto && !spec_has_device(devices@, DeviceType::GPU)
            && spec_has_device(devices@, DeviceType::NPU) ==> (r matches Some(name) && name@
            == devices@[spec_first_device(devices@, DeviceType::NPU)].name@),
        preference == DevicePreference::Auto && !spec_has_device(devices@, DeviceType::GPU)
            && !spec_has_device(devices@, DeviceType::NPU) && spec_has_device(
            devices@,
            DeviceType::CPU,
        ) ==> (r matches Some(name) && name@ == devices@[spec_first_device(
            devices@,
            DeviceType::CPU,
        )].name@),
        preference == DevicePreference::Auto && !spec_has_device(devices@, DeviceType::GPU)
            && !spec_has_device(devices@, DeviceType::NPU) && !spec_has_device(
            devices@,
            DeviceType::CPU,
        ) && devices@.len() > 0 ==> (r matches Some(name) && name@ == devices@[0].name@),
{
    match preference {
        DevicePreference::Auto => select_fastest_device(devices),
        DevicePreference::GPU => find_device_by_type(devices, DeviceType::GPU),
        DevicePreference::NPU => find_device_by_type(devices, DeviceType::NPU),
        DevicePreference::CPU => find_device_by_type(devices, DeviceType::CPU),
    }
}

} // verus!
