//! Hardware profiling: the performance tier that tunes the accumulator and
//! chunking behaviour.
//!
//! Core count and memory come from machine readings; the GPU kind is resolved
//! by the host layer (it takes environment and driver probes) and handed in.
//! The tier calculation itself is exact.

use vstd::prelude::*;

verus! {

/// The kind of GPU acceleration available.
#[derive(Clone, Copy, Debug, PartialEq, Eq, Structural)]
pub enum GpuType {
    /// No usable GPU: CPU-only processing.
    NoGpu,
    /// Apple Silicon.
    Metal,
    /// NVIDIA.
    Cuda,
    /// AMD/Intel.
    Vulkan,
    /// Generic GPU compute.
    OpenCl,
}

/// The four performance tiers, from constrained to high-end.
#[derive(Clone, Copy, Debug, PartialEq, Eq, Structural)]
pub enum PerformanceTier {
    Low,
    Medium,
    High,
    Ultra,
}

/// How large the transcription chunks should be, trading responsiveness
/// against accuracy.
#[derive(Clone, Copy, Debug, PartialEq, Eq, Structural)]
pub enum ChunkSizePreference {
    Fast,
    Balanced,
    Quality,
}

/// Hardware capabilities for audio-processing tuning.
#[derive(Clone, Copy, Debug, PartialEq, Eq, Structural)]
pub struct HardwareProfile {
    pub cpu_cores: u8,
    pub has_gpu_acceleration: bool,
    pub gpu_type: GpuType,
    pub memory_gb: u8,
    pub performance_tier: PerformanceTier,
}

/// The tier for a hardware combination.
pub open spec fn spec_performance_tier(cpu_cores: u8, gpu_type: GpuType, memory_gb: u8)
    -> PerformanceTier {
    match gpu_type {
        GpuType::Metal | GpuType::Cuda => if memory_gb >= 16 && cpu_cores >= 8 {
            PerformanceTier::Ultra
        } else {
            PerformanceTier::High
        },
        GpuType::Vulkan | GpuType::OpenCl => if memory_gb >= 12 && cpu_cores >= 6 {
            PerformanceTier::High
        } else {
            PerformanceTier::Medium
        },
        GpuType::NoGpu => if cpu_cores >= 8 && memory_gb >= 16 {
            PerformanceTier::Medium
        } else {
            PerformanceTier::Low
        },
    }
}

impl HardwareProfile {
    /// A coherent profile: the tier matches the parts and the GPU flag
    /// matches the GPU kind.
    pub open spec fn wf(self) -> bool {
        &&& self.performance_tier == spec_performance_tier(
            self.cpu_cores,
            self.gpu_type,
            self.memory_gb,
        )
        &&& self.has_gpu_acceleration == (self.gpu_type != GpuType::NoGpu)
    }

    /// Calculate the performance tier of a hardware combination.
    pub fn calculate_performance_tier(cpu_cores: u8, gpu_type: &GpuType, memory_gb: u8)
        -> (r: PerformanceTier)
        ensures
            r == spec_performance_tier(cpu_cores, *gpu_type, memory_gb),
    {
        match gpu_type {
            GpuType::Metal | GpuType::Cuda => {
                if memory_gb >= 16 && cpu_cores >= 8 {
                    PerformanceTier::Ultra
                } else {
                    PerformanceTier::High
                }
            },
            GpuType::Vulkan | GpuType::OpenCl => {
                if memory_gb >= 12 && cpu_cores >= 6 {
                    PerformanceTier::High
                } else {
                    PerformanceTier::Medium
                }
            },
            GpuType::NoGpu => {
                if cpu_cores >= 8 && memory_gb >= 16 {
                    PerformanceTier::Medium
                } else {
                    PerformanceTier::Low
                }
            },
        }
    }

    /// Detect the machine's profile. Core count and memory are read here;
    /// `gpu_type` is the host layer's probe result, since driver and
    /// environment probes cannot be made from the library.
    ///
    /// A core count the platform does not report falls back to 4; unreadable
    /// memory falls back to 8 GB.
    pub fn detect(gpu_type: GpuType) -> (r: HardwareProfile)
        ensures
            r.wf(),
            r.gpu_type == gpu_type,
            r.cpu_cores > 0,
            r.memory_gb > 0,
    {
        let cpu_cores = Self::detect_cpu_cores();
        let memory_gb = Self::detect_memory_gb();
        let performance_tier = Self::calculate_performance_tier(cpu_cores, &gpu_type, memory_gb);
        HardwareProfile {
            cpu_cores,
            has_gpu_acceleration: !matches!(gpu_type, GpuType::NoGpu),
            gpu_type,
            memory_gb,
            performance_tier,
        }
    }

    /// The machine's physical core count, clamped to 255, with 4 as the
    /// fallback where the platform reports none.
    fn detect_cpu_cores() -> (r: u8)
        ensures
            r > 0,
    {
        match sysinfo::System::physical_core_count() {
            Some(n) => {
                if n == 0 {
                    4
                } else if n > 255 {
                    255
                } else {
                    n as u8
                }
            },
            None => 4,
        }
    }

    /// The machine's memory in whole gigabytes, with 8 as the fallback where
    /// the reading is unusable.
    fn detect_memory_gb() -> (r: u8)
        ensures
            r > 0,
    {
        let mut sys = sysinfo::System::new();
        sys.refresh_memory();
        let total_bytes = sys.total_memory();
        let total_gb: u64 = total_bytes / 1073741824;
        if total_gb == 0 || total_gb > 255 {
            8
        } else {
            total_gb as u8
        }
    }

    /// Recommended chunk duration for the tier, in milliseconds.
    pub fn get_recommended_chunk_duration_ms(&self) -> (r: u32)
        ensures
            self.performance_tier == PerformanceTier::Ultra ==> r == 25000,
            self.performance_tier == PerformanceTier::High ==> r == 20000,
            self.performance_tier == PerformanceTier::Medium ==> r == 15000,
            self.performance_tier == PerformanceTier::Low ==> r == 10000,
    {
        match self.performance_tier {
            PerformanceTier::Ultra => 25000,
            PerformanceTier::High => 20000,
            PerformanceTier::Medium => 15000,
            PerformanceTier::Low => 10000,
        }
    }

    /// Whether the tier can process the given stream in real time.
    pub fn can_handle_realtime(&self, sample_rate: u32, channels: u16) -> (r: bool)
        ensures
            r == {
                let data_rate = sample_rate as int * channels as int;
                match self.performance_tier {
                    PerformanceTier::Ultra => data_rate <= 192000,
                    PerformanceTier::High => data_rate <= 96000,
                    PerformanceTier::Medium => data_rate <= 48000,
                    PerformanceTier::Low => data_rate <= 22050,
                }
            },
    {
        proof {
            vstd::arithmetic::mul::lemma_mul_upper_bound(
                sample_rate as int, u32::MAX as int, channels as int, u16::MAX as int);
        }
        let data_rate: u64 = (sample_rate as u64) * (channels as u64);
        match self.performance_tier {
            PerformanceTier::Ultra => data_rate <= 192000,
            PerformanceTier::High => data_rate <= 96000,
            PerformanceTier::Medium => data_rate <= 48000,
            PerformanceTier::Low => data_rate <= 22050,
        }
    }
}

/// The accumulator thresholds tuned per tier: minimum duration, maximum
/// duration and flush timeout, in milliseconds. Constrained hardware gets
/// shorter windows for latency; strong hardware longer windows for quality.
pub fn accumulator_params(tier: PerformanceTier) -> (r: (u64, u64, u64))
    ensures
        tier == PerformanceTier::Ultra ==> r == (1000u64, 8000u64, 1500u64),
        tier == PerformanceTier::High ==> r == (800u64, 6000u64, 1200u64),
        tier == PerformanceTier::Medium ==> r == (800u64, 4000u64, 1000u64),
        tier == PerformanceTier::Low ==> r == (500u64, 3000u64, 800u64),
        r.0 <= r.1,
{
    match tier {
        PerformanceTier::Ultra => (1000, 8000, 1500),
        PerformanceTier::High => (800, 6000, 1200),
        PerformanceTier::Medium => (800, 4000, 1000),
        PerformanceTier::Low => (500, 3000, 800),
    }
}

} // verus!
