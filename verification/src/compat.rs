//! Small decisions of the serving layer: the health verdict, the model
//! listing of the compatibility dialect, and the fallback plan for odd
//! tokenizer configurations.

use vstd::prelude::*;
use crate::errors::ErrorResponse;

verus! {

/// The health probe: healthy exactly when the backend accepts new work,
/// and otherwise a service-unavailable status with a fixed body.
/// Saturation of the admission gate is not unhealthiness; it surfaces as
/// an overload on admission instead.
pub fn health_response(backend_healthy: bool) -> (r: Result<(), (u16, ErrorResponse)>)
    ensures
        r is Ok <==> backend_healthy,
        r matches Err(e) ==> (e.0 == 503 && e.1.error@ == "unhealthy"@ && e.1.error_type@
            == "healthcheck"@),
{
    if backend_healthy {
        Ok(())
    } else {
        Err(
            (
                503,
                ErrorResponse {
                    error: String::from_str("unhealthy"),
                    error_type: String::from_str("healthcheck"),
                },
            ),
        )
    }
}

/// One served model, as the compatibility dialect lists it.
#[derive(Clone, PartialEq, Eq, Debug)]
pub struct ModelEntry {
    pub id: String,
    pub object: String,
    pub created: u64,
    pub owned_by: String,
}

/// The model listing of the compatibility dialect.
#[derive(Clone, PartialEq, Eq, Debug)]
pub struct ModelsList {
    pub object: String,
    pub data: Vec<ModelEntry>,
}

/// List the single served model: one entry, owned by and named after the
/// served model id.
pub fn build_models_list(model_id: &String) -> (r: ModelsList)
    ensures
        r.object@ == "list"@,
        r.data@.len() == 1,
        r.data@[0].id == model_id,
        r.data@[0].object@ == "model"@,
        r.data@[0].created == 0,
        r.data@[0].owned_by == model_id,
{
    let mut data: Vec<ModelEntry> = Vec::new();
    data.push(
        ModelEntry {
            id: model_id.clone(),
            object: String::from_str("model"),
            created: 0,
            owned_by: model_id.clone(),
        },
    );
    ModelsList { object: String::from_str("list"), data }
}

/// What an odd model configuration file reports, as plain values.
#[derive(Clone, PartialEq, Eq, Debug)]
pub struct FallbackConfig {
    /// The configuration names a model type.
    pub model_type_present: bool,
    /// The base model the configuration points at, if any.
    pub base_model: Option<String>,
    /// The configuration carries a state-space-model section.
    pub ssm_config_present: bool,
}

/// The tokenizer fallback plan for an odd model configuration: when no
/// model type is named but a base model is, the base model's tokenizer is
/// resolved in its place; a state-space-model section additionally selects
/// the legacy tokenizer fallback.
pub fn plan_tokenizer_fallback(config: FallbackConfig) -> (r: (Option<String>, bool))
    ensures
        r.0 == (if !config.model_type_present {
            config.base_model
        } else {
            None::<String>
        }),
        r.1 == config.ssm_config_present,
{
    let resolve_base = if !config.model_type_present {
        config.base_model
    } else {
        None
    };
    (resolve_base, config.ssm_config_present)
}

} // verus!
