//! One point-in-time snapshot: usage figures built from counters sampled
//! together, GPU readings, and the answer a request gets.

use vstd::prelude::*;
use vstd::string::*;
use crate::size::{iec_display, iec_text};

verus! {

/// A used / total pair of byte counters, with both rendered in IEC units.
pub struct Usage {
    pub used_bytes: u64,
    pub total_bytes: u64,
    pub used_text: String,
    pub total_text: String,
}

impl Usage {
    /// The texts render the counters that stand beside them.
    pub open spec fn wf(&self) -> bool {
        &&& self.used_text@ == iec_text(self.used_bytes)
        &&& self.total_text@ == iec_text(self.total_bytes)
    }

    /// Builds the figures of one used / total pair.
    pub fn measure(used_bytes: u64, total_bytes: u64) -> (r: Usage)
        ensures
            r.used_bytes == used_bytes,
            r.total_bytes == total_bytes,
            r.wf(),
    {
        let used_text = iec_display(used_bytes);
        let total_text = iec_display(total_bytes);
        Usage { used_bytes, total_bytes, used_text, total_text }
    }

    /// The share in use as numerator and denominator, or none where the total is
    /// zero (no swap configured, say): then no ratio is reported at all.
    pub fn ratio(&self) -> (r: Option<(u64, u64)>)
        ensures
            self.total_bytes == 0 ==> r is None,
            self.total_bytes > 0 ==> r == Some((self.used_bytes, self.total_bytes)),
    {
        if self.total_bytes == 0 {
            None
        } else {
            Some((self.used_bytes, self.total_bytes))
        }
    }
}

/// System memory and swap counters, sampled once.
#[derive(Debug, Clone, Copy, PartialEq, Eq, Structural)]
pub struct MemoryCounters {
    pub ram_total: u64,
    pub ram_used: u64,
    pub swap_total: u64,
    pub swap_used: u64,
}

/// The GPU counters of one sample.
#[derive(Debug, Clone, Copy, PartialEq, Eq, Structural)]
pub struct GpuReadings {
    pub vram_total: u64,
    pub vram_used: u64,
    /// Share of the sampling window the GPU was busy, in percent; `gpu_sample`
    /// bounds it by 100.
    pub busy_percent: u8,
}

/// The GPU read that failed.
#[derive(Debug, Clone, Copy, PartialEq, Eq, Structural)]
pub enum GpuCounter {
    /// The device directory could not be opened as a GPU.
    Device,
    VramTotal,
    VramUsed,
    BusyPercent,
}

/// A failed sample: which read failed, and what the reader said.
pub struct SamplingError {
    pub counter: GpuCounter,
    pub detail: String,
}

/// A busy percentage as reported, bounded by 100.
pub open spec fn bounded_percent(p: u8) -> u8 {
    if p <= 100 { p } else { 100 }
}

/// What the message of a failed sample opens with, by the read that failed.
pub open spec fn counter_label(c: GpuCounter) -> Seq<char> {
    match c {
        GpuCounter::Device => "cannot open GPU device: "@,
        GpuCounter::VramTotal => "cannot read total VRAM: "@,
        GpuCounter::VramUsed => "cannot read used VRAM: "@,
        GpuCounter::BusyPercent => "cannot read GPU busy percent: "@,
    }
}

impl SamplingError {
    /// HTTP status of a request whose sample failed.
    pub fn status(&self) -> (r: u16)
        ensures
            r == 500,
    {
        500
    }

    /// A one-line description for the body of the failed response.
    pub fn message(&self) -> (r: String)
        ensures
            r@ == counter_label(self.counter) + self.detail@,
    {
        let label = match self.counter {
            GpuCounter::Device => String::from_str("cannot open GPU device: "),
            GpuCounter::VramTotal => String::from_str("cannot read total VRAM: "),
            GpuCounter::VramUsed => String::from_str("cannot read used VRAM: "),
            GpuCounter::BusyPercent => String::from_str("cannot read GPU busy percent: "),
        };
        label.concat(self.detail.as_str())
    }
}

/// Gathers the three GPU reads of one sample. The first read that failed, in the
/// order total VRAM, used VRAM, busy percent, fails the whole sample.
pub fn gpu_sample(
    vram_total: Result<u64, String>,
    vram_used: Result<u64, String>,
    busy_percent: Result<u8, String>,
) -> (r: Result<GpuReadings, SamplingError>)
    ensures
        r is Ok <==> (vram_total is Ok && vram_used is Ok && busy_percent is Ok),
        r matches Ok(g) ==> {
            &&& g.vram_total == vram_total->Ok_0
            &&& g.vram_used == vram_used->Ok_0
            &&& g.busy_percent == bounded_percent(busy_percent->Ok_0)
        },
        r matches Err(e) ==> match vram_total {
            Err(d) => e.counter == GpuCounter::VramTotal && e.detail@ == d@,
            Ok(_) => match vram_used {
                Err(d) => e.counter == GpuCounter::VramUsed && e.detail@ == d@,
                Ok(_) => busy_percent matches Err(d) && e.counter == GpuCounter::BusyPercent
                    && e.detail@ == d@,
            },
        },
{
    let total = match vram_total {
        Ok(v) => v,
        Err(detail) => {
            return Err(SamplingError { counter: GpuCounter::VramTotal, detail });
        },
    };
    let used = match vram_used {
        Ok(v) => v,
        Err(detail) => {
            return Err(SamplingError { counter: GpuCounter::VramUsed, detail });
        },
    };
    let busy = match busy_percent {
        Ok(v) => v,
        Err(detail) => {
            return Err(SamplingError { counter: GpuCounter::BusyPercent, detail });
        },
    };
    let busy_percent = if busy <= 100 { busy } else { 100 };
    Ok(GpuReadings { vram_total: total, vram_used: used, busy_percent })
}

/// The figures one request reports, all taken from a single sample.
pub struct Snapshot {
    pub ram: Usage,
    pub swap: Usage,
    pub gpu_vram: Usage,
    /// Share of the sampling window the GPU was busy, in percent.
    pub gpu_busy_percent: u8,
}

impl Snapshot {
    /// Every text renders the counter beside it, and the busy share is a percentage.
    pub open spec fn wf(&self) -> bool {
        &&& self.ram.wf()
        &&& self.swap.wf()
        &&& self.gpu_vram.wf()
        &&& self.gpu_busy_percent <= 100
    }

    /// Every figure comes from the one memory sample and the one GPU sample given.
    pub open spec fn taken_from(&self, memory: MemoryCounters, gpu: GpuReadings) -> bool {
        &&& self.ram.used_bytes == memory.ram_used
        &&& self.ram.total_bytes == memory.ram_total
        &&& self.swap.used_bytes == memory.swap_used
        &&& self.swap.total_bytes == memory.swap_total
        &&& self.gpu_vram.used_bytes == gpu.vram_used
        &&& self.gpu_vram.total_bytes == gpu.vram_total
        &&& self.gpu_busy_percent == bounded_percent(gpu.busy_percent)
    }
}

/// Assembles the snapshot of one request from its memory sample and its GPU
/// sample; a failed GPU sample fails the request with the same error.
pub fn build_snapshot(memory: MemoryCounters, gpu: Result<GpuReadings, SamplingError>) -> (r: Result<
    Snapshot,
    SamplingError,
>)
    ensures
        r is Ok <==> gpu is Ok,
        r matches Ok(s) ==> s.wf() && s.taken_from(memory, gpu->Ok_0),
        r matches Err(e) ==> gpu matches Err(g) && e.counter == g.counter && e.detail@ == g.detail@,
{
    let g = match gpu {
        Ok(g) => g,
        Err(e) => {
            return Err(e);
        },
    };
    let gpu_busy_percent = if g.busy_percent <= 100 { g.busy_percent } else { 100 };
    Ok(Snapshot {
        ram: Usage::measure(memory.ram_used, memory.ram_total),
        swap: Usage::measure(memory.swap_used, memory.swap_total),
        gpu_vram: Usage::measure(g.vram_used, g.vram_total),
        gpu_busy_percent,
    })
}

/// Each size text of a snapshot renders the very counter of the sample that its
/// share is computed from: a response never pairs a text with a figure of
/// another sample.
pub proof fn snapshot_texts_render_sample(s: Snapshot, memory: MemoryCounters, gpu: GpuReadings)
    requires
        s.wf(),
        s.taken_from(memory, gpu),
    ensures
        s.ram.used_text@ == iec_text(memory.ram_used),
        s.ram.total_text@ == iec_text(memory.ram_total),
        s.swap.used_text@ == iec_text(memory.swap_used),
        s.swap.total_text@ == iec_text(memory.swap_total),
        s.gpu_vram.used_text@ == iec_text(gpu.vram_used),
        s.gpu_vram.total_text@ == iec_text(gpu.vram_total),
        s.gpu_busy_percent <= 100,
{
}

/// HTTP status of the answer to a request: 200 with the snapshot, or the
/// error's status when sampling failed.
pub fn response_status(outcome: &Result<Snapshot, SamplingError>) -> (r: u16)
    ensures
        outcome is Ok ==> r == 200,
        outcome is Err ==> r == 500,
{
    match outcome {
        Ok(_) => 200,
        Err(e) => e.status(),
    }
}

} // verus!
