//! Which provider the settings name, and where its API key comes from.

use crate::text::{lowercase_of, str_eq, to_lowercase};
use vstd::prelude::*;
use vstd::string::*;

verus! {

/// The providers that there are.
#[derive(Debug, Clone, Copy, PartialEq, Eq, Structural)]
pub enum ProviderKind {
    Ollama,
    OpenAI,
    OpenRouter,
    Glm,
}

/// What is reported of a provider that there is not.
pub open spec fn unknown_provider_message(name: Seq<char>) -> Seq<char> {
    "Unknown provider: "@ + name + ". Available: openai, openrouter, ollama, glm/zai"@
}

/// The provider that `name` names, whatever its case; `openai` where no
/// name is given.
pub open spec fn provider_kind_of(name: Option<Seq<char>>) -> Result<ProviderKind, Seq<char>> {
    let given = match name {
        Some(n) => n,
        None => "openai"@,
    };
    let lower = lowercase_of(given);
    if lower == "ollama"@ {
        Ok(ProviderKind::Ollama)
    } else if lower == "openai"@ {
        Ok(ProviderKind::OpenAI)
    } else if lower == "openrouter"@ {
        Ok(ProviderKind::OpenRouter)
    } else if lower == "zai"@ || lower == "glm"@ {
        Ok(ProviderKind::Glm)
    } else {
        Err(unknown_provider_message(given))
    }
}

/// The environment variables that may hold the API key of a provider, the
/// one to look at first first.
pub open spec fn api_key_variables_of(kind: ProviderKind) -> Seq<Seq<char>> {
    match kind {
        ProviderKind::Ollama => Seq::empty(),
        ProviderKind::OpenAI => seq!["OPENAI_API_KEY"@, "DINOE_OPENAI_API_KEY"@],
        ProviderKind::OpenRouter => seq!["OPENROUTER_API_KEY"@, "DINOE_OPENROUTER_API_KEY"@],
        ProviderKind::Glm => seq![
            "ZAI_API_KEY"@,
            "GLM_API_KEY"@,
            "DINOE_ZAI_API_KEY"@,
            "DINOE_GLM_API_KEY"@,
        ],
    }
}

/// The first of `values` that is there, from `from` on.
pub open spec fn first_set(values: Seq<Option<Seq<char>>>, from: int) -> Option<Seq<char>>
    decreases values.len() + 1 - from,
{
    if from < 0 || from >= values.len() {
        None
    } else if values[from] is Some {
        values[from]
    } else {
        first_set(values, from + 1)
    }
}

/// The API key: the first environment variable that is set, else the key
/// of the settings, which must not be empty.
pub open spec fn api_key_of(env_values: Seq<Option<Seq<char>>>, config_key: Seq<char>) -> Result<
    Seq<char>,
    Seq<char>,
> {
    match first_set(env_values, 0) {
        Some(key) => Ok(key),
        None => if config_key.len() > 0 {
            Ok(config_key)
        } else {
            Err("No API key found"@)
        },
    }
}

/// The provider that `name` names.
pub fn provider_kind(name: Option<&str>) -> (r: Result<ProviderKind, String>)
    ensures
        match r {
            Ok(kind) => provider_kind_of(name.deep_view()) == Ok::<ProviderKind, Seq<char>>(kind),
            Err(e) => provider_kind_of(name.deep_view()) == Err::<ProviderKind, Seq<char>>(e@),
        },
{
    let given = match name {
        Some(n) => n,
        None => "openai",
    };
    let lower = to_lowercase(given);
    if str_eq(lower.as_str(), "ollama") {
        Ok(ProviderKind::Ollama)
    } else if str_eq(lower.as_str(), "openai") {
        Ok(ProviderKind::OpenAI)
    } else if str_eq(lower.as_str(), "openrouter") {
        Ok(ProviderKind::OpenRouter)
    } else if str_eq(lower.as_str(), "zai") || str_eq(lower.as_str(), "glm") {
        Ok(ProviderKind::Glm)
    } else {
        let mut message = "Unknown provider: ".to_owned();
        message.append(given);
        message.append(". Available: openai, openrouter, ollama, glm/zai");
        Err(message)
    }
}

/// The environment variables that may hold the API key of `kind`.
pub fn api_key_variables(kind: ProviderKind) -> (r: Vec<String>)
    ensures
        r.deep_view() == api_key_variables_of(kind),
{
    let mut names: Vec<String> = Vec::new();
    match kind {
        ProviderKind::Ollama => {},
        ProviderKind::OpenAI => {
            names.push("OPENAI_API_KEY".to_owned());
            names.push("DINOE_OPENAI_API_KEY".to_owned());
        },
        ProviderKind::OpenRouter => {
            names.push("OPENROUTER_API_KEY".to_owned());
            names.push("DINOE_OPENROUTER_API_KEY".to_owned());
        },
        ProviderKind::Glm => {
            names.push("ZAI_API_KEY".to_owned());
            names.push("GLM_API_KEY".to_owned());
            names.push("DINOE_ZAI_API_KEY".to_owned());
            names.push("DINOE_GLM_API_KEY".to_owned());
        },
    }
    assert(names.deep_view() =~= api_key_variables_of(kind));
    names
}

/// The API key to use. `env_values` holds what each environment variable
/// holds, in the order in which they are looked at, `None` for one that
/// is not set.
pub fn resolve_api_key_with_fallback(env_values: &Vec<Option<String>>, config_key: &str) -> (r:
    Result<String, String>)
    ensures
        match r {
            Ok(key) => api_key_of(env_values.deep_view(), config_key@) == Ok::<
                Seq<char>,
                Seq<char>,
            >(key@),
            Err(e) => api_key_of(env_values.deep_view(), config_key@) == Err::<
                Seq<char>,
                Seq<char>,
            >(e@),
        },
{
    let ghost ev = env_values.deep_view();
    let mut i: usize = 0;
    while i < env_values.len()
        invariant
            i <= env_values.len(),
            ev == env_values.deep_view(),
            first_set(ev, 0) == first_set(ev, i as int),
        decreases env_values.len() - i,
    {
        assert(ev[i as int] == env_values[i as int].deep_view());
        match &env_values[i] {
            Some(key) => {
                return Ok(key.clone());
            },
            None => {},
        }
        i += 1;
    }
    if !config_key.is_empty() {
        Ok(config_key.to_owned())
    } else {
        Err("No API key found".to_owned())
    }
}

} // verus!
