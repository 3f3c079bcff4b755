//! CPU identification: the one-time probe of the processor's family and
//! model, used to select between the two identity-register decodes of
//! the local interrupt controller.  The probe itself asks the CPU; the
//! decodes of its raw fields are pure functions.

use vstd::prelude::*;

verus! {

#[derive(Copy, Clone, Debug, PartialEq, Eq, Structural)]
pub enum CpuidError {
    /// The processor does not expose the identification leaf.
    Unsupported,
    Unknown,
}

/// Raw version fields of the processor-identification leaf, as the
/// hardware reports them.
#[derive(Copy, Clone, Debug, PartialEq, Eq, Structural)]
pub struct CpuVersionInfo {
    pub base_family: u8,
    pub extended_family: u8,
    pub base_model: u8,
    pub extended_model: u8,
    pub stepping: u8,
}

/// Relies on raw_cpuid::CpuId::get_feature_info, the processor
/// identification leaf, and its accessors base_family_id,
/// extended_family_id, base_model_id, extended_model_id and
/// stepping_id: each returns the named bit field of the leaf's first
/// word, and the base and stepping fields are four bits wide.  What the
/// machine answers is not a function of any argument, so only those
/// field widths are stated.
#[verifier::external_body]
fn cpu_version_info() -> (r: Option<CpuVersionInfo>)
    ensures
        r matches Some(info) ==> info.base_family < 16 && info.base_model < 16
            && info.extended_model < 16 && info.stepping < 16,
{
    raw_cpuid::CpuId::new().get_feature_info().map(
        |f: raw_cpuid::FeatureInfo|
            CpuVersionInfo {
                base_family: f.base_family_id(),
                extended_family: f.extended_family_id(),
                base_model: f.base_model_id(),
                extended_model: f.extended_model_id(),
                stepping: f.stepping_id(),
            },
    )
}

/// The display family: the extended family field shifted above the base
/// family field.
pub open spec fn spec_family_of(info: CpuVersionInfo) -> u32 {
    ((info.extended_family as u32) << 4) | (info.base_family as u32)
}

/// The display model: the extended model field shifted above the base
/// model field.
pub open spec fn spec_model_of(info: CpuVersionInfo) -> u32 {
    ((info.extended_model as u32) << 4) | (info.base_model as u32)
}

pub fn family_of(info: &CpuVersionInfo) -> (r: u32)
    ensures
        r == spec_family_of(*info),
{
    ((info.extended_family as u32) << 4) | (info.base_family as u32)
}

pub fn model_of(info: &CpuVersionInfo) -> (r: u32)
    ensures
        r == spec_model_of(*info),
{
    ((info.extended_model as u32) << 4) | (info.base_model as u32)
}

/// Family of the running processor, or `Unsupported` when the
/// identification leaf is absent.
pub fn family() -> (r: Result<u32, CpuidError>)
    ensures
        r matches Err(e) ==> e == CpuidError::Unsupported,
{
    match cpu_version_info() {
        None => Err(CpuidError::Unsupported),
        Some(info) => Ok(family_of(&info)),
    }
}

/// Model of the running processor, or `Unsupported` when the
/// identification leaf is absent.
pub fn model() -> (r: Result<u32, CpuidError>)
    ensures
        r matches Err(e) ==> e == CpuidError::Unsupported,
{
    match cpu_version_info() {
        None => Err(CpuidError::Unsupported),
        Some(info) => Ok(model_of(&info)),
    }
}

/// The generation test selecting the identity-register decode: an
/// eight-bit identity field on family or model `0xf` and later, a
/// four-bit field before.
pub fn is_p4_or_xeon_or_later_from(info: &CpuVersionInfo) -> (r: bool)
    ensures
        r == (spec_family_of(*info) >= 0xf || spec_model_of(*info) >= 0xf),
{
    family_of(info) >= 0xf || model_of(info) >= 0xf
}

/// The generation test against the running processor, or `Unsupported`
/// when the identification leaf is absent rather than a silently guessed
/// decode.
pub fn is_p4_or_xeon_or_later() -> (r: Result<bool, CpuidError>)
    ensures
        r matches Err(e) ==> e == CpuidError::Unsupported,
{
    match cpu_version_info() {
        None => Err(CpuidError::Unsupported),
        Some(info) => Ok(is_p4_or_xeon_or_later_from(&info)),
    }
}

/// The one-time identification dump: the raw fields and both decodes,
/// from a single probe, for the boot sequence to report.
#[derive(Debug)]
pub struct CpuidDiagnostics {
    pub info: Option<CpuVersionInfo>,
    pub family: Result<u32, CpuidError>,
    pub model: Result<u32, CpuidError>,
}

pub fn init() -> (r: CpuidDiagnostics)
    ensures
        r.info matches Some(info) ==> r.family == Ok::<u32, CpuidError>(spec_family_of(info))
            && r.model == Ok::<u32, CpuidError>(spec_model_of(info)),
        r.info is None ==> r.family == Err::<u32, CpuidError>(CpuidError::Unsupported)
            && r.model == Err::<u32, CpuidError>(CpuidError::Unsupported),
{
    match cpu_version_info() {
        None => CpuidDiagnostics {
            info: None,
            family: Err(CpuidError::Unsupported),
            model: Err(CpuidError::Unsupported),
        },
        Some(info) => CpuidDiagnostics {
            info: Some(info),
            family: Ok(family_of(&info)),
            model: Ok(model_of(&info)),
        },
    }
}

} // verus!
