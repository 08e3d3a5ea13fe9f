//! The processor's identity: what the platform reports of it, and the record
//! that the report is written from.

use vstd::prelude::*;
use raw_cpuid::{ExtendedFeatures, ExtendedProcessorFeatureIdentifiers, FeatureInfo};
use sysinfo::System;
use crate::catalog::{
    feature_catalog, is_catalog, lemma_catalog_names_unique, names_recognized, names_unique,
    BasicLeaf, CpuidReading, ExtendedLeaf, ProcessorLeaf,
};
use crate::cpu_features::CpuFeatures;
use crate::platform::NativeCpuId;

verus! {

/// Name, core counts and clock speeds of the processor. Speeds are in MHz.
#[derive(Debug, Clone, PartialEq, Eq)]
pub struct CpuInfo {
    pub name: String,
    pub physical_cores: usize,
    pub logical_cores: usize,
    pub base_speed: u64,
    pub boost_speed: u64,
}

/// The mathematical value of a [`CpuInfo`].
pub struct CpuInfoView {
    pub name: Seq<char>,
    pub physical_cores: nat,
    pub logical_cores: nat,
    pub base_speed: nat,
    pub boost_speed: nat,
}

impl View for CpuInfo {
    type V = CpuInfoView;

    open spec fn view(&self) -> CpuInfoView {
        CpuInfoView {
            name: self.name@,
            physical_cores: self.physical_cores as nat,
            logical_cores: self.logical_cores as nat,
            base_speed: self.base_speed as nat,
            boost_speed: self.boost_speed as nat,
        }
    }
}

impl CpuInfoView {
    /// What holds of the identity of a host whose core counts are sound: at
    /// least one physical core, no fewer logical cores than physical ones,
    /// and a boost speed that is the estimate for the base speed.
    pub open spec fn consistent(self) -> bool {
        &&& 1 <= self.physical_cores
        &&& self.physical_cores <= self.logical_cores
        &&& self.boost_speed == boost_speed_for(self.base_speed)
    }
}

/// The one way in which a query fails.
#[derive(Debug, Clone, Copy, PartialEq, Eq, Structural)]
pub enum QueryError {
    /// The platform reported no processor at all.
    NoProcessorFound,
}

impl QueryError {
    /// The text shown to the user for this error.
    pub open spec fn message_text(self) -> Seq<char> {
        "Could not retrieve CPU information"@
    }

    /// The text shown to the user for this error.
    pub fn message(&self) -> (text: String)
        ensures
            text@ == self.message_text(),
    {
        "Could not retrieve CPU information".to_owned()
    }
}

/// What the platform reports of the first processor it lists, and of the
/// host's cores.
#[derive(Debug, Clone, PartialEq, Eq)]
pub struct CpuReading {
    pub brand: String,
    pub frequency: u64,
    pub physical_cores: usize,
    pub logical_cores: usize,
}

/// The largest speed that a [`CpuInfo`] can hold.
pub open spec fn speed_limit() -> nat {
    u64::MAX as nat
}

/// The boost estimate for a base speed: the base speed times 1.2, rounded
/// down.
pub open spec fn boost_estimate(base: nat) -> nat {
    base * 6 / 5
}

/// The boost estimate as a [`CpuInfo`] holds it: an estimate beyond the
/// largest speed is replaced by the largest speed.
pub open spec fn boost_speed_for(base: nat) -> nat {
    if boost_estimate(base) <= speed_limit() {
        boost_estimate(base)
    } else {
        speed_limit()
    }
}

/// The identity that a reading gives.
pub open spec fn identity_of(reading: CpuReading) -> CpuInfoView {
    CpuInfoView {
        name: reading.brand@,
        physical_cores: reading.physical_cores as nat,
        logical_cores: reading.logical_cores as nat,
        base_speed: reading.frequency as nat,
        boost_speed: boost_speed_for(reading.frequency as nat),
    }
}

/// The boost estimate is the floor of 1.2 times the base speed: ten times the
/// estimate does not exceed twelve times the base speed, and ten times the
/// next number does.
pub proof fn lemma_boost_estimate_is_floor(base: nat)
    ensures
        10 * boost_estimate(base) <= 12 * base < 10 * (boost_estimate(base) + 1),
{
}

/// While the estimate fits, a [`CpuInfo`] holds it exactly; it fits for every
/// base speed up to five sixths of the largest speed.
pub proof fn lemma_boost_speed_exact(base: nat)
    requires
        base * 6 <= speed_limit() * 5,
    ensures
        boost_speed_for(base) == boost_estimate(base),
{
}

/// A reading with at least one physical core and no fewer logical cores than
/// physical ones gives a consistent identity.
pub proof fn lemma_identity_consistent(reading: CpuReading)
    requires
        1 <= reading.physical_cores <= reading.logical_cores,
    ensures
        identity_of(reading).consistent(),
{
}

/// The boost speed recorded for a base speed.
pub fn estimate_boost(base: u64) -> (boost: u64)
    ensures
        boost == boost_speed_for(base as nat),
{
    let wide: u128 = (base as u128) * 6 / 5;
    if wide > u64::MAX as u128 {
        u64::MAX
    } else {
        wide as u64
    }
}

/// Makes the identity record from what the platform reported: `None` stands
/// for a platform that lists no processor.
pub fn cpu_info_from(reading: Option<CpuReading>) -> (result: Result<CpuInfo, QueryError>)
    ensures
        reading is None ==> result == Err::<CpuInfo, QueryError>(QueryError::NoProcessorFound),
        reading matches Some(r) ==> result is Ok && result->Ok_0@ == identity_of(r),
{
    match reading {
        Some(r) => {
            let boost_speed = estimate_boost(r.frequency);
            Ok(
                CpuInfo {
                    name: r.brand,
                    physical_cores: r.physical_cores,
                    logical_cores: r.logical_cores,
                    base_speed: r.frequency,
                    boost_speed,
                },
            )
        },
        None => Err(QueryError::NoProcessorFound),
    }
}

/// Asks the platform for its processors and the host's core counts.
pub fn read_cpu() -> (reading: Option<CpuReading>)
    ensures
        reading matches Some(r) ==> r.physical_cores >= 1 && r.logical_cores >= 1,
{
    let mut system = System::new_all();
    system.refresh_all();
    match system.cpus().first() {
        Some(cpu) => {
            let physical_cores = num_cpus::get_physical();
            let logical_cores = num_cpus::get();
            let frequency = cpu.frequency();
            Some(
                CpuReading {
                    brand: cpu.brand().to_owned(),
                    frequency,
                    physical_cores,
                    logical_cores,
                },
            )
        },
        None => None,
    }
}

/// Queries the platform for the processor's identity.
pub fn get_cpu_info() -> (result: Result<CpuInfo, QueryError>)
    ensures
        result matches Ok(info) ==> {
            &&& info.physical_cores >= 1
            &&& info.logical_cores >= 1
            &&& info.boost_speed == boost_speed_for(info.base_speed as nat)
        },
        result matches Err(e) ==> e == QueryError::NoProcessorFound,
{
    cpu_info_from(read_cpu())
}

/// The flags of the basic feature leaf, each as the processor reports it.
fn basic_leaf(leaf: &FeatureInfo) -> BasicLeaf {
    BasicLeaf {
        mmx: leaf.has_mmx(),
        sse: leaf.has_sse(),
        sse2: leaf.has_sse2(),
        sse3: leaf.has_sse3(),
        ssse3: leaf.has_ssse3(),
        sse41: leaf.has_sse41(),
        sse42: leaf.has_sse42(),
        popcnt: leaf.has_popcnt(),
        pclmulqdq: leaf.has_pclmulqdq(),
        cnxtid: leaf.has_cnxtid(),
        tsc: leaf.has_tsc(),
        smx: leaf.has_smx(),
        vmx: leaf.has_vmx(),
        aesni: leaf.has_aesni(),
        avx: leaf.has_avx(),
        f16c: leaf.has_f16c(),
        fma: leaf.has_fma(),
        xsave: leaf.has_xsave(),
        oxsave: leaf.has_oxsave(),
        fpu: leaf.has_fpu(),
        de: leaf.has_de(),
        psn: leaf.has_psn(),
        msr: leaf.has_msr(),
        cmpxchg8b: leaf.has_cmpxchg8b(),
        apic: leaf.has_apic(),
    }
}

/// The flags of the extended feature leaf, each as the processor reports it.
fn extended_leaf(leaf: &ExtendedFeatures) -> ExtendedLeaf {
    ExtendedLeaf {
        avx2: leaf.has_avx2(),
        bmi1: leaf.has_bmi1(),
        bmi2: leaf.has_bmi2(),
        adx: leaf.has_adx(),
        sha: leaf.has_sha(),
        rdta: leaf.has_rdta(),
        rdseed: leaf.has_rdseed(),
        invpcid: leaf.has_invpcid(),
        prefetchwt1: leaf.has_prefetchwt1(),
        umip: leaf.has_umip(),
        fsgsbase: leaf.has_fsgsbase(),
        smep: leaf.has_smep(),
        smap: leaf.has_smap(),
        pku: leaf.has_pku(),
        avx512f: leaf.has_avx512f(),
        avx512dq: leaf.has_avx512dq(),
        avx512_ifma: leaf.has_avx512_ifma(),
        avx512pf: leaf.has_avx512pf(),
        avx512er: leaf.has_avx512er(),
        avx512cd: leaf.has_avx512cd(),
        avx512bw: leaf.has_avx512bw(),
        avx512vl: leaf.has_avx512vl(),
        avx512vbmi: leaf.has_avx512vbmi(),
        avx512vnni: leaf.has_avx512vnni(),
    }
}

/// The flags of the extended processor-info leaf, each as the processor
/// reports it.
fn processor_leaf(leaf: &ExtendedProcessorFeatureIdentifiers) -> ProcessorLeaf {
    ProcessorLeaf {
        gib_pages: leaf.has_1gib_pages(),
        sse4a: leaf.has_sse4a(),
    }
}

/// Asks the processor for the three leaves that the catalog is read from.
pub fn read_cpuid() -> CpuidReading {
    let cpuid = NativeCpuId::open();
    let basic = match cpuid.feature_info() {
        Some(leaf) => Some(basic_leaf(&leaf)),
        None => None,
    };
    let extended = match cpuid.extended_feature_info() {
        Some(leaf) => Some(extended_leaf(&leaf)),
        None => None,
    };
    let processor = match cpuid.extended_processor_info() {
        Some(leaf) => Some(processor_leaf(&leaf)),
        None => None,
    };
    CpuidReading { basic, extended, processor }
}

/// Queries the processor for its feature catalog. The query itself never
/// fails: a leaf that the host lacks leaves its entries out.
pub fn get_cpu_features() -> (result: Result<Vec<CpuFeatures>, QueryError>)
    ensures
        result is Ok,
        is_catalog(result->Ok_0.deep_view()),
        names_unique(result->Ok_0.deep_view()),
        names_recognized(result->Ok_0.deep_view()),
{
    let reading = read_cpuid();
    let features = feature_catalog(&reading);
    proof {
        lemma_catalog_names_unique(reading);
    }
    Ok(features)
}

} // verus!
