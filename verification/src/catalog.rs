//! The feature catalog: which names are reported, in which order, and from
//! which flag of which leaf each one is read.
//!
//! Most names are read from the flag that bears the name. A few are not:
//! `NX` is read from the L1 context-id flag, `RDTSCP` and `TSC` both from the
//! time-stamp-counter flag, `RDRAND` from the resource-director allocation
//! flag, `PAE` and `PGE` both from the flag for pages of 1 GiB, and `PSE36`
//! from the SSE4A flag. These pairings are deliberate: the report shows
//! exactly them, and the tables below are not to be "corrected".

use vstd::prelude::*;
use vstd::utf8::is_ascii_chars;
use crate::cpu_features::{CpuFeatures, FeatureView};

verus! {

/// The flags of the basic feature leaf that the catalog reads.
#[derive(Debug, Clone, Copy, PartialEq, Eq, Default)]
pub struct BasicLeaf {
    pub mmx: bool,
    pub sse: bool,
    pub sse2: bool,
    pub sse3: bool,
    pub ssse3: bool,
    pub sse41: bool,
    pub sse42: bool,
    pub popcnt: bool,
    pub pclmulqdq: bool,
    pub cnxtid: bool,
    pub tsc: bool,
    pub smx: bool,
    pub vmx: bool,
    pub aesni: bool,
    pub avx: bool,
    pub f16c: bool,
    pub fma: bool,
    pub xsave: bool,
    pub oxsave: bool,
    pub fpu: bool,
    pub de: bool,
    pub psn: bool,
    pub msr: bool,
    pub cmpxchg8b: bool,
    pub apic: bool,
}

/// The flags of the extended feature leaf that the catalog reads.
#[derive(Debug, Clone, Copy, PartialEq, Eq, Default)]
pub struct ExtendedLeaf {
    pub avx2: bool,
    pub bmi1: bool,
    pub bmi2: bool,
    pub adx: bool,
    pub sha: bool,
    pub rdta: bool,
    pub rdseed: bool,
    pub invpcid: bool,
    pub prefetchwt1: bool,
    pub umip: bool,
    pub fsgsbase: bool,
    pub smep: bool,
    pub smap: bool,
    pub pku: bool,
    pub avx512f: bool,
    pub avx512dq: bool,
    pub avx512_ifma: bool,
    pub avx512pf: bool,
    pub avx512er: bool,
    pub avx512cd: bool,
    pub avx512bw: bool,
    pub avx512vl: bool,
    pub avx512vbmi: bool,
    pub avx512vnni: bool,
}

/// The flags of the extended processor-info leaf that the catalog reads.
#[derive(Debug, Clone, Copy, PartialEq, Eq, Default)]
pub struct ProcessorLeaf {
    pub gib_pages: bool,
    pub sse4a: bool,
}

/// What the processor's identification facility reported: each leaf, or
/// `None` where the host does not have it.
#[derive(Debug, Clone, Copy, PartialEq, Eq, Default)]
pub struct CpuidReading {
    pub basic: Option<BasicLeaf>,
    pub extended: Option<ExtendedLeaf>,
    pub processor: Option<ProcessorLeaf>,
}

/// A catalog entry.
pub open spec fn entry(name: Seq<char>, supported: bool) -> FeatureView {
    FeatureView { name, supported }
}

/// The entries read from the basic feature leaf, in catalog order.
pub open spec fn basic_entries(leaf: BasicLeaf) -> Seq<FeatureView> {
    seq![
        entry("MMX"@, leaf.mmx),
        entry("SSE"@, leaf.sse),
        entry("SSE2"@, leaf.sse2),
        entry("SSE3"@, leaf.sse3),
        entry("SSSE3"@, leaf.ssse3),
        entry("SSE4.1"@, leaf.sse41),
        entry("SSE4.2"@, leaf.sse42),
        entry("POPCNT"@, leaf.popcnt),
        entry("PCLMULQDQ"@, leaf.pclmulqdq),
        entry("NX"@, leaf.cnxtid),
        entry("RDTSCP"@, leaf.tsc),
        entry("TSC"@, leaf.tsc),
        entry("SMX"@, leaf.smx),
        entry("VMX"@, leaf.vmx),
        entry("AES"@, leaf.aesni),
        entry("AVX"@, leaf.avx),
        entry("F16C"@, leaf.f16c),
        entry("FMA"@, leaf.fma),
        entry("XSAVE"@, leaf.xsave),
        entry("OSXSAVE"@, leaf.oxsave),
        entry("FPU"@, leaf.fpu),
        entry("DE"@, leaf.de),
        entry("PSN"@, leaf.psn),
        entry("MSR"@, leaf.msr),
        entry("CX8"@, leaf.cmpxchg8b),
        entry("APIC"@, leaf.apic),
    ]
}

/// The entries read from the extended feature leaf, in catalog order.
pub open spec fn extended_entries(leaf: ExtendedLeaf) -> Seq<FeatureView> {
    seq![
        entry("AVX2"@, leaf.avx2),
        entry("BMI1"@, leaf.bmi1),
        entry("BMI2"@, leaf.bmi2),
        entry("ADX"@, leaf.adx),
        entry("SHA"@, leaf.sha),
        entry("RDRAND"@, leaf.rdta),
        entry("RDSEED"@, leaf.rdseed),
        entry("INVPCID"@, leaf.invpcid),
        entry("PREFETCHWT1"@, leaf.prefetchwt1),
        entry("UMIP"@, leaf.umip),
        entry("FSGSBASE"@, leaf.fsgsbase),
        entry("SMEP"@, leaf.smep),
        entry("SMAP"@, leaf.smap),
        entry("PKU"@, leaf.pku),
        entry("AVX512F"@, leaf.avx512f),
        entry("AVX512DQ"@, leaf.avx512dq),
        entry("AVX512IFMA"@, leaf.avx512_ifma),
        entry("AVX512PF"@, leaf.avx512pf),
        entry("AVX512ER"@, leaf.avx512er),
        entry("AVX512CD"@, leaf.avx512cd),
        entry("AVX512BW"@, leaf.avx512bw),
        entry("AVX512VL"@, leaf.avx512vl),
        entry("AVX512VBMI"@, leaf.avx512vbmi),
        entry("AVX512VNNI"@, leaf.avx512vnni),
    ]
}

/// The entries read from the extended processor-info leaf, in catalog order.
pub open spec fn processor_entries(leaf: ProcessorLeaf) -> Seq<FeatureView> {
    seq![
        entry("PAE"@, leaf.gib_pages),
        entry("PSE36"@, leaf.sse4a),
        entry("PGE"@, leaf.gib_pages),
    ]
}

/// The entries that a reading gives: those of each leaf that is there, basic
/// leaf first, processor-info leaf last. A leaf that the host lacks
/// contributes nothing.
pub open spec fn catalog_of(reading: CpuidReading) -> Seq<FeatureView> {
    (match reading.basic {
        Some(leaf) => basic_entries(leaf),
        None => Seq::empty(),
    }) + (match reading.extended {
        Some(leaf) => extended_entries(leaf),
        None => Seq::empty(),
    }) + (match reading.processor {
        Some(leaf) => processor_entries(leaf),
        None => Seq::empty(),
    })
}

/// `features` is the catalog of some reading.
pub open spec fn is_catalog(features: Seq<FeatureView>) -> bool {
    exists|reading: CpuidReading| features == catalog_of(reading)
}

/// The names reported from the basic feature leaf, in catalog order.
pub open spec fn basic_names() -> Seq<Seq<char>> {
    seq![
        "MMX"@,
        "SSE"@,
        "SSE2"@,
        "SSE3"@,
        "SSSE3"@,
        "SSE4.1"@,
        "SSE4.2"@,
        "POPCNT"@,
        "PCLMULQDQ"@,
        "NX"@,
        "RDTSCP"@,
        "TSC"@,
        "SMX"@,
        "VMX"@,
        "AES"@,
        "AVX"@,
        "F16C"@,
        "FMA"@,
        "XSAVE"@,
        "OSXSAVE"@,
        "FPU"@,
        "DE"@,
        "PSN"@,
        "MSR"@,
        "CX8"@,
        "APIC"@,
    ]
}

/// The names reported from the extended feature leaf, in catalog order.
pub open spec fn extended_names() -> Seq<Seq<char>> {
    seq![
        "AVX2"@,
        "BMI1"@,
        "BMI2"@,
        "ADX"@,
        "SHA"@,
        "RDRAND"@,
        "RDSEED"@,
        "INVPCID"@,
        "PREFETCHWT1"@,
        "UMIP"@,
        "FSGSBASE"@,
        "SMEP"@,
        "SMAP"@,
        "PKU"@,
        "AVX512F"@,
        "AVX512DQ"@,
        "AVX512IFMA"@,
        "AVX512PF"@,
        "AVX512ER"@,
        "AVX512CD"@,
        "AVX512BW"@,
        "AVX512VL"@,
        "AVX512VBMI"@,
        "AVX512VNNI"@,
    ]
}

/// The names reported from the extended processor-info leaf, in catalog
/// order.
pub open spec fn processor_names() -> Seq<Seq<char>> {
    seq![
        "PAE"@,
        "PSE36"@,
        "PGE"@,
    ]
}

/// Every name that a catalog can hold, in catalog order.
pub open spec fn recognized_names() -> Seq<Seq<char>> {
    basic_names() + extended_names() + processor_names()
}

/// The names of `features`, in their order.
pub open spec fn names_of(features: Seq<FeatureView>) -> Seq<Seq<char>> {
    Seq::new(features.len(), |i: int| features[i].name)
}

/// `names` where `present` holds, and nothing where it does not.
pub open spec fn names_if(present: bool, names: Seq<Seq<char>>) -> Seq<Seq<char>> {
    if present {
        names
    } else {
        Seq::empty()
    }
}

/// The names of the catalog of a host, given which leaves the host has.
pub open spec fn names_for(basic: bool, extended: bool, processor: bool) -> Seq<Seq<char>> {
    names_if(basic, basic_names()) + names_if(extended, extended_names()) + names_if(
        processor,
        processor_names(),
    )
}

/// No two features of `features` have the same name.
pub open spec fn names_unique(features: Seq<FeatureView>) -> bool {
    forall|i: int, j: int|
        0 <= i < j < features.len() ==> (#[trigger] features[i]).name != (
        #[trigger] features[j]).name
}

/// Every feature of `features` has a recognized name.
pub open spec fn names_recognized(features: Seq<FeatureView>) -> bool {
    forall|i: int|
        0 <= i < features.len() ==> recognized_names().contains((#[trigger] features[i]).name)
}

/// Length, first, last and last but one character: enough to tell any two
/// recognized names apart.
spec fn name_key(name: Seq<char>) -> (nat, char, char, char) {
    (name.len(), name[0], name[name.len() - 1], name[name.len() - 2])
}

/// There are 53 recognized names, no two of them are equal, and each is made
/// of ASCII characters only.
pub proof fn lemma_recognized_names()
    ensures
        basic_names().len() == 26,
        extended_names().len() == 24,
        processor_names().len() == 3,
        recognized_names().len() == 53,
        recognized_names().no_duplicates(),
        forall|k: int|
            0 <= k < recognized_names().len() ==> is_ascii_chars(#[trigger] recognized_names()[k]),
{
    reveal_strlit("MMX");
    reveal_strlit("SSE");
    reveal_strlit("SSE2");
    reveal_strlit("SSE3");
    reveal_strlit("SSSE3");
    reveal_strlit("SSE4.1");
    reveal_strlit("SSE4.2");
    reveal_strlit("POPCNT");
    reveal_strlit("PCLMULQDQ");
    reveal_strlit("NX");
    reveal_strlit("RDTSCP");
    reveal_strlit("TSC");
    reveal_strlit("SMX");
    reveal_strlit("VMX");
    reveal_strlit("AES");
    reveal_strlit("AVX");
    reveal_strlit("F16C");
    reveal_strlit("FMA");
    reveal_strlit("XSAVE");
    reveal_strlit("OSXSAVE");
    reveal_strlit("FPU");
    reveal_strlit("DE");
    reveal_strlit("PSN");
    reveal_strlit("MSR");
    reveal_strlit("CX8");
    reveal_strlit("APIC");
    reveal_strlit("AVX2");
    reveal_strlit("BMI1");
    reveal_strlit("BMI2");
    reveal_strlit("ADX");
    reveal_strlit("SHA");
    reveal_strlit("RDRAND");
    reveal_strlit("RDSEED");
    reveal_strlit("INVPCID");
    reveal_strlit("PREFETCHWT1");
    reveal_strlit("UMIP");
    reveal_strlit("FSGSBASE");
    reveal_strlit("SMEP");
    reveal_strlit("SMAP");
    reveal_strlit("PKU");
    reveal_strlit("AVX512F");
    reveal_strlit("AVX512DQ");
    reveal_strlit("AVX512IFMA");
    reveal_strlit("AVX512PF");
    reveal_strlit("AVX512ER");
    reveal_strlit("AVX512CD");
    reveal_strlit("AVX512BW");
    reveal_strlit("AVX512VL");
    reveal_strlit("AVX512VBMI");
    reveal_strlit("AVX512VNNI");
    reveal_strlit("PAE");
    reveal_strlit("PSE36");
    reveal_strlit("PGE");
    let names = recognized_names();
    assert forall|i: int, j: int| 0 <= i < j < names.len() implies names[i] != names[j] by {
        assert(name_key(names[i]) != name_key(names[j]));
    }
    assert forall|k: int| 0 <= k < names.len() implies is_ascii_chars(#[trigger] names[k]) by {
        assert forall|i: int| 0 <= i < names[k].len() implies '\0' <= #[trigger] names[k][i]
            <= '\u{7f}' by {}
    }
}

/// The names of a catalog, and their order, depend only on which leaves the
/// host has, not on the value of any flag: they are the names of those
/// leaves, in catalog order.
pub proof fn lemma_catalog_names(reading: CpuidReading)
    ensures
        names_of(catalog_of(reading)) == names_for(
            reading.basic is Some,
            reading.extended is Some,
            reading.processor is Some,
        ),
{
    if let Some(leaf) = reading.basic {
        assert(names_of(basic_entries(leaf)) =~= basic_names());
    }
    if let Some(leaf) = reading.extended {
        assert(names_of(extended_entries(leaf)) =~= extended_names());
    }
    if let Some(leaf) = reading.processor {
        assert(names_of(processor_entries(leaf)) =~= processor_names());
    }
    assert(names_of(catalog_of(reading)) =~= names_for(
        reading.basic is Some,
        reading.extended is Some,
        reading.processor is Some,
    ));
}

/// Two readings of hosts with the same leaves give catalogs with the same
/// names in the same order, whatever the flags are.
pub proof fn lemma_catalog_order_stable(first: CpuidReading, second: CpuidReading)
    requires
        first.basic is Some <==> second.basic is Some,
        first.extended is Some <==> second.extended is Some,
        first.processor is Some <==> second.processor is Some,
    ensures
        names_of(catalog_of(first)) == names_of(catalog_of(second)),
{
    lemma_catalog_names(first);
    lemma_catalog_names(second);
}

/// Where in the list of recognized names the name at place `i` of the catalog
/// of `reading` stands.
spec fn place_of(reading: CpuidReading, i: int) -> int {
    let skipped_basic = if reading.basic is Some {
        0
    } else {
        basic_names().len() as int
    };
    let skipped_extended = if reading.extended is Some {
        0
    } else {
        extended_names().len() as int
    };
    if i < basic_names().len() - skipped_basic {
        i
    } else if i < basic_names().len() + extended_names().len() - skipped_basic - skipped_extended {
        i + skipped_basic
    } else {
        i + skipped_basic + skipped_extended
    }
}

/// In the catalog of any reading, no name occurs twice, every name is a
/// recognized one, and every name is made of ASCII characters only.
pub proof fn lemma_catalog_names_unique(reading: CpuidReading)
    ensures
        names_unique(catalog_of(reading)),
        names_recognized(catalog_of(reading)),
        forall|i: int|
            0 <= i < catalog_of(reading).len() ==> is_ascii_chars(
                (#[trigger] catalog_of(reading)[i]).name,
            ),
{
    let catalog = catalog_of(reading);
    let names = names_of(catalog);
    let all = recognized_names();
    lemma_catalog_names(reading);
    lemma_recognized_names();
    let place = |i: int| place_of(reading, i);
    assert forall|i: int| 0 <= i < catalog.len() implies 0 <= place(i) < all.len() && (
    #[trigger] catalog[i]).name == all[place(i)] by {
        assert(names[i] == catalog[i].name);
    }
    assert forall|i: int| 0 <= i < catalog.len() implies all.contains(
        (#[trigger] catalog[i]).name,
    ) by {
        assert(all[place(i)] == catalog[i].name);
    }
    assert forall|i: int, j: int| 0 <= i < j < catalog.len() implies (#[trigger] catalog[i]).name
        != (#[trigger] catalog[j]).name by {
        assert(place(i) < place(j));
        assert(all[place(i)] != all[place(j)]);
    }
    assert forall|i: int| 0 <= i < catalog.len() implies is_ascii_chars(
        (#[trigger] catalog[i]).name,
    ) by {
        assert(all[place(i)] == catalog[i].name);
    }
}

/// The entries that a table of names and flags gives, row by row.
spec fn rows_entries(rows: Seq<(&'static str, bool)>) -> Seq<FeatureView> {
    Seq::new(rows.len(), |i: int| entry(rows[i].0@, rows[i].1))
}

/// Appends one entry for each row, in the order of the rows.
fn push_rows(features: &mut Vec<CpuFeatures>, rows: &[(&'static str, bool)])
    ensures
        final(features).deep_view() == old(features).deep_view() + rows_entries(rows@),
{
    let ghost before = features.deep_view();
    let mut i: usize = 0;
    assert(features.deep_view() =~= before + rows_entries(rows@.take(0)));
    while i < rows.len()
        invariant
            i <= rows.len(),
            features.deep_view() == before + rows_entries(rows@.take(i as int)),
        decreases rows.len() - i,
    {
        let ghost so_far = features.deep_view();
        let (name, supported) = rows[i];
        features.push(CpuFeatures::new(name, supported));
        assert(features.deep_view() =~= so_far.push(entry(name@, supported)));
        assert(rows_entries(rows@.take(i + 1)) =~= rows_entries(rows@.take(i as int)).push(
            entry(name@, supported),
        ));
        i = i + 1;
    }
    assert(rows@.take(i as int) =~= rows@);
}

/// The table of the basic feature leaf.
fn basic_rows(leaf: &BasicLeaf) -> (rows: [(&'static str, bool); 26])
    ensures
        rows_entries(rows@) == basic_entries(*leaf),
{
    let rows = [
        ("MMX", leaf.mmx),
        ("SSE", leaf.sse),
        ("SSE2", leaf.sse2),
        ("SSE3", leaf.sse3),
        ("SSSE3", leaf.ssse3),
        ("SSE4.1", leaf.sse41),
        ("SSE4.2", leaf.sse42),
        ("POPCNT", leaf.popcnt),
        ("PCLMULQDQ", leaf.pclmulqdq),
        ("NX", leaf.cnxtid),
        ("RDTSCP", leaf.tsc),
        ("TSC", leaf.tsc),
        ("SMX", leaf.smx),
        ("VMX", leaf.vmx),
        ("AES", leaf.aesni),
        ("AVX", leaf.avx),
        ("F16C", leaf.f16c),
        ("FMA", leaf.fma),
        ("XSAVE", leaf.xsave),
        ("OSXSAVE", leaf.oxsave),
        ("FPU", leaf.fpu),
        ("DE", leaf.de),
        ("PSN", leaf.psn),
        ("MSR", leaf.msr),
        ("CX8", leaf.cmpxchg8b),
        ("APIC", leaf.apic),
    ];
    assert(rows_entries(rows@) =~= basic_entries(*leaf));
    rows
}

/// The table of the extended feature leaf.
fn extended_rows(leaf: &ExtendedLeaf) -> (rows: [(&'static str, bool); 24])
    ensures
        rows_entries(rows@) == extended_entries(*leaf),
{
    let rows = [
        ("AVX2", leaf.avx2),
        ("BMI1", leaf.bmi1),
        ("BMI2", leaf.bmi2),
        ("ADX", leaf.adx),
        ("SHA", leaf.sha),
        ("RDRAND", leaf.rdta),
        ("RDSEED", leaf.rdseed),
        ("INVPCID", leaf.invpcid),
        ("PREFETCHWT1", leaf.prefetchwt1),
        ("UMIP", leaf.umip),
        ("FSGSBASE", leaf.fsgsbase),
        ("SMEP", leaf.smep),
        ("SMAP", leaf.smap),
        ("PKU", leaf.pku),
        ("AVX512F", leaf.avx512f),
        ("AVX512DQ", leaf.avx512dq),
        ("AVX512IFMA", leaf.avx512_ifma),
        ("AVX512PF", leaf.avx512pf),
        ("AVX512ER", leaf.avx512er),
        ("AVX512CD", leaf.avx512cd),
        ("AVX512BW", leaf.avx512bw),
        ("AVX512VL", leaf.avx512vl),
        ("AVX512VBMI", leaf.avx512vbmi),
        ("AVX512VNNI", leaf.avx512vnni),
    ];
    assert(rows_entries(rows@) =~= extended_entries(*leaf));
    rows
}

/// The table of the extended processor-info leaf.
fn processor_rows(leaf: &ProcessorLeaf) -> (rows: [(&'static str, bool); 3])
    ensures
        rows_entries(rows@) == processor_entries(*leaf),
{
    let rows = [
        ("PAE", leaf.gib_pages),
        ("PSE36", leaf.sse4a),
        ("PGE", leaf.gib_pages),
    ];
    assert(rows_entries(rows@) =~= processor_entries(*leaf));
    rows
}

/// The catalog for a reading.
pub fn feature_catalog(reading: &CpuidReading) -> (features: Vec<CpuFeatures>)
    ensures
        features.deep_view() == catalog_of(*reading),
{
    let mut features: Vec<CpuFeatures> = Vec::new();
    assert(features.deep_view() =~= Seq::empty());
    if let Some(leaf) = &reading.basic {
        push_rows(&mut features, basic_rows(leaf).as_slice());
    }
    if let Some(leaf) = &reading.extended {
        push_rows(&mut features, extended_rows(leaf).as_slice());
    }
    if let Some(leaf) = &reading.processor {
        push_rows(&mut features, processor_rows(leaf).as_slice());
    }
    assert(features.deep_view() =~= catalog_of(*reading));
    features
}

} // verus!
