//! The outside functions that the library calls, with what is taken on trust
//! of each. None of these contracts is proved.

use vstd::prelude::*;
use raw_cpuid::{
    CpuId, CpuIdReaderNative, ExtendedFeatures, ExtendedProcessorFeatureIdentifiers, FeatureInfo,
};
use sysinfo::{Cpu, System};

verus! {

/// `sysinfo::System`, the handle through which the operating system is asked.
#[verifier::external_type_specification]
#[verifier::external_body]
pub struct ExSystem(System);

/// `sysinfo::Cpu`, one processor as the operating system lists it.
#[verifier::external_type_specification]
#[verifier::external_body]
pub struct ExCpu(Cpu);

/// `raw_cpuid::FeatureInfo`, the basic feature leaf.
#[verifier::external_type_specification]
#[verifier::external_body]
pub struct ExFeatureInfo(FeatureInfo);

/// `raw_cpuid::ExtendedFeatures`, the extended feature leaf.
#[verifier::external_type_specification]
#[verifier::external_body]
pub struct ExExtendedFeatures(ExtendedFeatures);

/// `raw_cpuid::ExtendedProcessorFeatureIdentifiers`, the extended
/// processor-info leaf.
#[verifier::external_type_specification]
#[verifier::external_body]
pub struct ExExtendedProcessorFeatureIdentifiers(ExtendedProcessorFeatureIdentifiers);

/// `raw_cpuid::CpuId` over the processor that the program runs on. The
/// outside type is generic over a reader trait, which keeps it from being
/// declared as it is; it is held here, and reached through the four
/// functions below.
#[verifier::external_body]
pub struct NativeCpuId {
    inner: CpuId<CpuIdReaderNative>,
}

impl NativeCpuId {
    /// `raw_cpuid::CpuId::new` makes the handle. Nothing is claimed of it.
    #[verifier::external_body]
    pub(crate) fn open() -> NativeCpuId {
        NativeCpuId { inner: CpuId::new() }
    }

    /// `raw_cpuid::CpuId::get_feature_info` returns the basic feature leaf,
    /// or `None` where the processor lacks it. Nothing is claimed of which.
    #[verifier::external_body]
    pub(crate) fn feature_info(&self) -> Option<FeatureInfo> {
        self.inner.get_feature_info()
    }

    /// `raw_cpuid::CpuId::get_extended_feature_info` returns the extended
    /// feature leaf, or `None` where the processor lacks it. Nothing is
    /// claimed of which.
    #[verifier::external_body]
    pub(crate) fn extended_feature_info(&self) -> Option<ExtendedFeatures> {
        self.inner.get_extended_feature_info()
    }

    /// `raw_cpuid::CpuId::get_extended_processor_and_feature_identifiers`
    /// returns the extended processor-info leaf, or `None` where the
    /// processor lacks it. Nothing is claimed of which.
    #[verifier::external_body]
    pub(crate) fn extended_processor_info(&self) -> Option<ExtendedProcessorFeatureIdentifiers> {
        self.inner.get_extended_processor_and_feature_identifiers()
    }
}

/// `sysinfo::System::new_all` returns a handle with everything loaded.
/// Nothing is claimed of what it holds.
pub assume_specification[ System::new_all ]() -> System;

/// `sysinfo::System::refresh_all` reads the system again. Nothing is claimed
/// of what the handle holds afterwards.
pub assume_specification[ System::refresh_all ](system: &mut System);

/// `sysinfo::System::cpus` returns the processors that the handle holds.
/// Nothing is claimed of them: the list may be empty.
pub assume_specification[ System::cpus ](system: &System) -> &[Cpu];

/// `sysinfo::Cpu::frequency` returns the frequency recorded for a processor.
/// Nothing is claimed of the number.
pub assume_specification[ Cpu::frequency ](cpu: &Cpu) -> u64;

/// `sysinfo::Cpu::brand` returns the brand text recorded for a processor.
/// Nothing is claimed of the text.
pub assume_specification[ Cpu::brand ](cpu: &Cpu) -> &str;

/// `num_cpus::get` returns the number of logical cores that the process may
/// use. Its documentation promises at least one.
pub assume_specification[ num_cpus::get ]() -> (n: usize)
    ensures
        n >= 1,
;

/// `num_cpus::get_physical` returns the number of physical cores. Its
/// documentation promises at least one.
pub assume_specification[ num_cpus::get_physical ]() -> (n: usize)
    ensures
        n >= 1,
;

// Each of the functions below answers for one flag of a leaf. The answer
// depends on the processor, and nothing is claimed of it.

/// `raw_cpuid::FeatureInfo::has_mmx` reads one flag of the leaf; its answer is not
/// constrained.
pub assume_specification[ FeatureInfo::has_mmx ](leaf: &FeatureInfo) -> bool;

/// `raw_cpuid::FeatureInfo::has_sse` reads one flag of the leaf; its answer is not
/// constrained.
pub assume_specification[ FeatureInfo::has_sse ](leaf: &FeatureInfo) -> bool;

/// `raw_cpuid::FeatureInfo::has_sse2` reads one flag of the leaf; its answer is not
/// constrained.
pub assume_specification[ FeatureInfo::has_sse2 ](leaf: &FeatureInfo) -> bool;

/// `raw_cpuid::FeatureInfo::has_sse3` reads one flag of the leaf; its answer is not
/// constrained.
pub assume_specification[ FeatureInfo::has_sse3 ](leaf: &FeatureInfo) -> bool;

/// `raw_cpuid::FeatureInfo::has_ssse3` reads one flag of the leaf; its answer is not
/// constrained.
pub assume_specification[ FeatureInfo::has_ssse3 ](leaf: &FeatureInfo) -> bool;

/// `raw_cpuid::FeatureInfo::has_sse41` reads one flag of the leaf; its answer is not
/// constrained.
pub assume_specification[ FeatureInfo::has_sse41 ](leaf: &FeatureInfo) -> bool;

/// `raw_cpuid::FeatureInfo::has_sse42` reads one flag of the leaf; its answer is not
/// constrained.
pub assume_specification[ FeatureInfo::has_sse42 ](leaf: &FeatureInfo) -> bool;

/// `raw_cpuid::FeatureInfo::has_popcnt` reads one flag of the leaf; its answer is not
/// constrained.
pub assume_specification[ FeatureInfo::has_popcnt ](leaf: &FeatureInfo) -> bool;

/// `raw_cpuid::FeatureInfo::has_pclmulqdq` reads one flag of the leaf; its answer is not
/// constrained.
pub assume_specification[ FeatureInfo::has_pclmulqdq ](leaf: &FeatureInfo) -> bool;

/// `raw_cpuid::FeatureInfo::has_cnxtid` reads one flag of the leaf; its answer is not
/// constrained.
pub assume_specification[ FeatureInfo::has_cnxtid ](leaf: &FeatureInfo) -> bool;

/// `raw_cpuid::FeatureInfo::has_tsc` reads one flag of the leaf; its answer is not
/// constrained.
pub assume_specification[ FeatureInfo::has_tsc ](leaf: &FeatureInfo) -> bool;

/// `raw_cpuid::FeatureInfo::has_smx` reads one flag of the leaf; its answer is not
/// constrained.
pub assume_specification[ FeatureInfo::has_smx ](leaf: &FeatureInfo) -> bool;

/// `raw_cpuid::FeatureInfo::has_vmx` reads one flag of the leaf; its answer is not
/// constrained.
pub assume_specification[ FeatureInfo::has_vmx ](leaf: &FeatureInfo) -> bool;

/// `raw_cpuid::FeatureInfo::has_aesni` reads one flag of the leaf; its answer is not
/// constrained.
pub assume_specification[ FeatureInfo::has_aesni ](leaf: &FeatureInfo) -> bool;

/// `raw_cpuid::FeatureInfo::has_avx` reads one flag of the leaf; its answer is not
/// constrained.
pub assume_specification[ FeatureInfo::has_avx ](leaf: &FeatureInfo) -> bool;

/// `raw_cpuid::FeatureInfo::has_f16c` reads one flag of the leaf; its answer is not
/// constrained.
pub assume_specification[ FeatureInfo::has_f16c ](leaf: &FeatureInfo) -> bool;

/// `raw_cpuid::FeatureInfo::has_fma` reads one flag of the leaf; its answer is not
/// constrained.
pub assume_specification[ FeatureInfo::has_fma ](leaf: &FeatureInfo) -> bool;

/// `raw_cpuid::FeatureInfo::has_xsave` reads one flag of the leaf; its answer is not
/// constrained.
pub assume_specification[ FeatureInfo::has_xsave ](leaf: &FeatureInfo) -> bool;

/// `raw_cpuid::FeatureInfo::has_oxsave` reads one flag of the leaf; its answer is not
/// constrained.
pub assume_specification[ FeatureInfo::has_oxsave ](leaf: &FeatureInfo) -> bool;

/// `raw_cpuid::FeatureInfo::has_fpu` reads one flag of the leaf; its answer is not
/// constrained.
pub assume_specification[ FeatureInfo::has_fpu ](leaf: &FeatureInfo) -> bool;

/// `raw_cpuid::FeatureInfo::has_de` reads one flag of the leaf; its answer is not
/// constrained.
pub assume_specification[ FeatureInfo::has_de ](leaf: &FeatureInfo) -> bool;

/// `raw_cpuid::FeatureInfo::has_psn` reads one flag of the leaf; its answer is not
/// constrained.
pub assume_specification[ FeatureInfo::has_psn ](leaf: &FeatureInfo) -> bool;

/// `raw_cpuid::FeatureInfo::has_msr` reads one flag of the leaf; its answer is not
/// constrained.
pub assume_specification[ FeatureInfo::has_msr ](leaf: &FeatureInfo) -> bool;

/// `raw_cpuid::FeatureInfo::has_cmpxchg8b` reads one flag of the leaf; its answer is not
/// constrained.
pub assume_specification[ FeatureInfo::has_cmpxchg8b ](leaf: &FeatureInfo) -> bool;

/// `raw_cpuid::FeatureInfo::has_apic` reads one flag of the leaf; its answer is not
/// constrained.
pub assume_specification[ FeatureInfo::has_apic ](leaf: &FeatureInfo) -> bool;

/// `raw_cpuid::ExtendedFeatures::has_avx2` reads one flag of the leaf; its answer is not
/// constrained.
pub assume_specification[ ExtendedFeatures::has_avx2 ](leaf: &ExtendedFeatures) -> bool;

/// `raw_cpuid::ExtendedFeatures::has_bmi1` reads one flag of the leaf; its answer is not
/// constrained.
pub assume_specification[ ExtendedFeatures::has_bmi1 ](leaf: &ExtendedFeatures) -> bool;

/// `raw_cpuid::ExtendedFeatures::has_bmi2` reads one flag of the leaf; its answer is not
/// constrained.
pub assume_specification[ ExtendedFeatures::has_bmi2 ](leaf: &ExtendedFeatures) -> bool;

/// `raw_cpuid::ExtendedFeatures::has_adx` reads one flag of the leaf; its answer is not
/// constrained.
pub assume_specification[ ExtendedFeatures::has_adx ](leaf: &ExtendedFeatures) -> bool;

/// `raw_cpuid::ExtendedFeatures::has_sha` reads one flag of the leaf; its answer is not
/// constrained.
pub assume_specification[ ExtendedFeatures::has_sha ](leaf: &ExtendedFeatures) -> bool;

/// `raw_cpuid::ExtendedFeatures::has_rdta` reads one flag of the leaf; its answer is not
/// constrained.
pub assume_specification[ ExtendedFeatures::has_rdta ](leaf: &ExtendedFeatures) -> bool;

/// `raw_cpuid::ExtendedFeatures::has_rdseed` reads one flag of the leaf; its answer is not
/// constrained.
pub assume_specification[ ExtendedFeatures::has_rdseed ](leaf: &ExtendedFeatures) -> bool;

/// `raw_cpuid::ExtendedFeatures::has_invpcid` reads one flag of the leaf; its answer is not
/// constrained.
pub assume_specification[ ExtendedFeatures::has_invpcid ](leaf: &ExtendedFeatures) -> bool;

/// `raw_cpuid::ExtendedFeatures::has_prefetchwt1` reads one flag of the leaf; its answer is not
/// constrained.
pub assume_specification[ ExtendedFeatures::has_prefetchwt1 ](leaf: &ExtendedFeatures) -> bool;

/// `raw_cpuid::ExtendedFeatures::has_umip` reads one flag of the leaf; its answer is not
/// constrained.
pub assume_specification[ ExtendedFeatures::has_umip ](leaf: &ExtendedFeatures) -> bool;

/// `raw_cpuid::ExtendedFeatures::has_fsgsbase` reads one flag of the leaf; its answer is not
/// constrained.
pub assume_specification[ ExtendedFeatures::has_fsgsbase ](leaf: &ExtendedFeatures) -> bool;

/// `raw_cpuid::ExtendedFeatures::has_smep` reads one flag of the leaf; its answer is not
/// constrained.
pub assume_specification[ ExtendedFeatures::has_smep ](leaf: &ExtendedFeatures) -> bool;

/// `raw_cpuid::ExtendedFeatures::has_smap` reads one flag of the leaf; its answer is not
/// constrained.
pub assume_specification[ ExtendedFeatures::has_smap ](leaf: &ExtendedFeatures) -> bool;

/// `raw_cpuid::ExtendedFeatures::has_pku` reads one flag of the leaf; its answer is not
/// constrained.
pub assume_specification[ ExtendedFeatures::has_pku ](leaf: &ExtendedFeatures) -> bool;

/// `raw_cpuid::ExtendedFeatures::has_avx512f` reads one flag of the leaf; its answer is not
/// constrained.
pub assume_specification[ ExtendedFeatures::has_avx512f ](leaf: &ExtendedFeatures) -> bool;

/// `raw_cpuid::ExtendedFeatures::has_avx512dq` reads one flag of the leaf; its answer is not
/// constrained.
pub assume_specification[ ExtendedFeatures::has_avx512dq ](leaf: &ExtendedFeatures) -> bool;

/// `raw_cpuid::ExtendedFeatures::has_avx512_ifma` reads one flag of the leaf; its answer is not
/// constrained.
pub assume_specification[ ExtendedFeatures::has_avx512_ifma ](leaf: &ExtendedFeatures) -> bool;

/// `raw_cpuid::ExtendedFeatures::has_avx512pf` reads one flag of the leaf; its answer is not
/// constrained.
pub assume_specification[ ExtendedFeatures::has_avx512pf ](leaf: &ExtendedFeatures) -> bool;

/// `raw_cpuid::ExtendedFeatures::has_avx512er` reads one flag of the leaf; its answer is not
/// constrained.
pub assume_specification[ ExtendedFeatures::has_avx512er ](leaf: &ExtendedFeatures) -> bool;

/// `raw_cpuid::ExtendedFeatures::has_avx512cd` reads one flag of the leaf; its answer is not
/// constrained.
pub assume_specification[ ExtendedFeatures::has_avx512cd ](leaf: &ExtendedFeatures) -> bool;

/// `raw_cpuid::ExtendedFeatures::has_avx512bw` reads one flag of the leaf; its answer is not
/// constrained.
pub assume_specification[ ExtendedFeatures::has_avx512bw ](leaf: &ExtendedFeatures) -> bool;

/// `raw_cpuid::ExtendedFeatures::has_avx512vl` reads one flag of the leaf; its answer is not
/// constrained.
pub assume_specification[ ExtendedFeatures::has_avx512vl ](leaf: &ExtendedFeatures) -> bool;

/// `raw_cpuid::ExtendedFeatures::has_avx512vbmi` reads one flag of the leaf; its answer is not
/// constrained.
pub assume_specification[ ExtendedFeatures::has_avx512vbmi ](leaf: &ExtendedFeatures) -> bool;

/// `raw_cpuid::ExtendedFeatures::has_avx512vnni` reads one flag of the leaf; its answer is not
/// constrained.
pub assume_specification[ ExtendedFeatures::has_avx512vnni ](leaf: &ExtendedFeatures) -> bool;

/// `raw_cpuid::ExtendedProcessorFeatureIdentifiers::has_1gib_pages` reads
/// one flag of the leaf; its answer is not constrained.
pub assume_specification[ ExtendedProcessorFeatureIdentifiers::has_1gib_pages ](
    leaf: &ExtendedProcessorFeatureIdentifiers,
) -> bool;

/// `raw_cpuid::ExtendedProcessorFeatureIdentifiers::has_sse4a` reads one
/// flag of the leaf, and answers `false` for a processor that is not AMD's;
/// its answer is not constrained.
pub assume_specification[ ExtendedProcessorFeatureIdentifiers::has_sse4a ](
    leaf: &ExtendedProcessorFeatureIdentifiers,
) -> bool;

} // verus!
