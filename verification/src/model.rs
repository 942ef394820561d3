//! Model selection: variant directories, noise suffixes, the model /
//! parameter file naming convention, per-scale pre-padding, and the
//! sync-gap forcing rule.

use vstd::prelude::*;
use crate::digits::{decimal_seq, push_decimal};

verus! {

/// The trained model families the native engine ships.  They differ in
/// tiling and cross-tile synchronization characteristics; `Nose` has no
/// cross-tile state at all.
#[derive(Debug, Copy, Clone, PartialEq, Eq, Structural)]
pub enum RealCuganModelType {
    Nose,
    Pro,
    Se,
}

/// A configuration the engine cannot be constructed with.
#[derive(Debug, Copy, Clone, PartialEq, Eq, Structural)]
pub enum ConfigError {
    /// The device index is neither the CPU fallback nor a known GPU.
    InvalidDevice,
    /// The upscale factor is not one of 2, 3 or 4.
    UnsupportedScale,
}

/// Relies on `String::push_str` of std: appends exactly the given slice.
pub assume_specification[ String::push_str ](s: &mut String, other: &str)
    ensures
        final (s)@ == old(s)@ + other@,
;

/// Whether the engine supports this upscale factor.
pub open spec fn valid_scale(scale: u32) -> bool {
    scale == 2 || scale == 3 || scale == 4
}

/// The fixed spatial pre-padding the engine's architecture needs around
/// each tile for this upscale factor.
pub open spec fn spec_prepadding(scale: u32) -> u32
    recommends
        valid_scale(scale),
{
    if scale == 2 {
        18
    } else if scale == 3 {
        14
    } else {
        19
    }
}

/// Pre-padding margin for a supported upscale factor: 18, 14 and 19
/// pixels for scales 2, 3 and 4 respectively.
pub fn prepadding_for_scale(scale: u32) -> (r: u32)
    requires
        valid_scale(scale),
    ensures
        r == spec_prepadding(scale),
{
    if scale == 2 {
        18
    } else if scale == 3 {
        14
    } else {
        19
    }
}

/// The sync gap the engine is actually constructed with: the `Nose`
/// variant has no cross-tile synchronization, so any requested gap is
/// forced to 0 for it; every other variant keeps the request.
pub open spec fn spec_effective_sync_gap(model: RealCuganModelType, requested: u32) -> u32 {
    if model == RealCuganModelType::Nose {
        0
    } else {
        requested
    }
}

/// Applies the sync-gap forcing rule.
pub fn effective_sync_gap(model: RealCuganModelType, requested: u32) -> (r: u32)
    ensures
        r == spec_effective_sync_gap(model, requested),
        model == RealCuganModelType::Nose ==> r == 0,
        model != RealCuganModelType::Nose ==> r == requested,
{
    if model == RealCuganModelType::Nose {
        0
    } else {
        requested
    }
}

/// The models-root subdirectory holding this variant's files.
pub open spec fn spec_model_dir(model: RealCuganModelType) -> Seq<char> {
    match model {
        RealCuganModelType::Nose => "models-nose"@,
        RealCuganModelType::Pro => "models-pro"@,
        RealCuganModelType::Se => "models-se"@,
    }
}

fn model_dir(model: RealCuganModelType) -> (r: &'static str)
    ensures
        r@ == spec_model_dir(model),
{
    match model {
        RealCuganModelType::Nose => "models-nose",
        RealCuganModelType::Pro => "models-pro",
        RealCuganModelType::Se => "models-se",
    }
}

/// The file-name fragment encoding the denoise level: `conservative` for
/// -1, `no-denoise` for 0, and `denoise{n}x` for a positive level.
pub open spec fn spec_noise_suffix(noise: i32) -> Seq<char>
    recommends
        noise >= -1,
{
    if noise == -1 {
        "conservative"@
    } else if noise == 0 {
        "no-denoise"@
    } else {
        "denoise"@ + decimal_seq(noise as nat) + "x"@
    }
}

/// The path, without its extension, of the two companion files for this
/// configuration: `{models_path}/{variant_dir}/up{scale}x-{suffix}`.
pub open spec fn spec_model_file_stem(
    models_path: Seq<char>,
    model: RealCuganModelType,
    scale: u32,
    noise: i32,
) -> Seq<char> {
    models_path + "/"@ + spec_model_dir(model) + "/up"@ + decimal_seq(scale as nat) + "x-"@
        + spec_noise_suffix(noise)
}

fn model_file_stem(models_path: &str, model: RealCuganModelType, scale: u32, noise: i32) -> (r:
    String)
    requires
        noise >= -1,
    ensures
        r@ == spec_model_file_stem(models_path@, model, scale, noise),
{
    let mut stem = String::new();
    stem.push_str(models_path);
    stem.push_str("/");
    stem.push_str(model_dir(model));
    stem.push_str("/up");
    push_decimal(&mut stem, scale);
    stem.push_str("x-");
    if noise == -1 {
        stem.push_str("conservative");
    } else if noise == 0 {
        stem.push_str("no-denoise");
    } else {
        stem.push_str("denoise");
        push_decimal(&mut stem, noise as u32);
        stem.push_str("x");
    }
    proof {
        assert(stem@ =~= spec_model_file_stem(models_path@, model, scale, noise));
    }
    stem
}

/// Everything about a configuration that is decided before any native
/// resource beyond the GPU context exists.
#[derive(Debug, Clone)]
pub struct ModelSelection {
    /// Fixed per-scale spatial pre-padding.
    pub prepadding: u32,
    /// The sync gap after the `Nose` forcing rule.
    pub sync_gap: u32,
    /// Path of the parameter-graph companion file.
    pub param_path: String,
    /// Path of the weights companion file.
    pub model_path: String,
}

/// Decides the construction-time parameters that depend only on the
/// requested configuration: pre-padding, the effective sync gap, and the
/// two companion file paths.  Fails exactly on an unsupported upscale
/// factor, before any native resource would be touched.
pub fn plan_model_selection(
    models_path: &str,
    model: RealCuganModelType,
    scale: u32,
    noise: i32,
    requested_sync_gap: u32,
) -> (r: Result<ModelSelection, ConfigError>)
    requires
        noise >= -1,
    ensures
        r is Ok <==> valid_scale(scale),
        r is Err ==> r->Err_0 == ConfigError::UnsupportedScale,
        r is Ok ==> {
            let sel = r->Ok_0;
            &&& sel.prepadding == spec_prepadding(scale)
            &&& sel.sync_gap == spec_effective_sync_gap(model, requested_sync_gap)
            &&& sel.param_path@ == spec_model_file_stem(models_path@, model, scale, noise)
                + ".param"@
            &&& sel.model_path@ == spec_model_file_stem(models_path@, model, scale, noise) + ".bin"@
        },
{
    if scale != 2 && scale != 3 && scale != 4 {
        return Err(ConfigError::UnsupportedScale);
    }
    let prepadding = prepadding_for_scale(scale);
    let sync_gap = effective_sync_gap(model, requested_sync_gap);
    let mut param_path = model_file_stem(models_path, model, scale, noise);
    let mut model_path = model_file_stem(models_path, model, scale, noise);
    param_path.push_str(".param");
    model_path.push_str(".bin");
    Ok(ModelSelection { prepadding, sync_gap, param_path, model_path })
}

} // verus!
