//! What the set-up wizard decides: which models to offer, where a
//! provider is reached, and whether a list of models kept from before is
//! still fresh.

use crate::json::{json_array_len, json_array_len_of, json_item_str, json_item_str_of};
use crate::text::{decimal, decimal_string, sort_strings, sorted_texts, str_eq};
use vstd::prelude::*;
use vstd::string::*;

verus! {

/// For how many seconds a list of models is kept.
pub const MODEL_CACHE_TTL_SECS: u64 = 43_200;

/// How many models are shown before the list is cut.
pub const MODEL_PREVIEW_LIMIT: usize = 20;

/// The entry of the list that stands for a model of the user's own
/// choosing.
pub const CUSTOM_MODEL_SENTINEL: &'static str = "__custom__";

/// The strings under `item_key` of the first `n` items of the list
/// `list_key` of `body`; an item without such a string is left out.
pub open spec fn listed_upto(body: Seq<char>, list_key: Seq<char>, item_key: Seq<char>, n: nat)
    -> Seq<Seq<char>>
    decreases n,
{
    if n == 0 {
        Seq::empty()
    } else {
        let before = listed_upto(body, list_key, item_key, (n - 1) as nat);
        match json_item_str_of(body, list_key, (n - 1) as usize, item_key) {
            Some(name) => before.push(name),
            None => before,
        }
    }
}

/// The strings under `item_key` of the items of the list `list_key` of
/// `body`, in the order of the list. None where `body` is no JSON or has
/// no such list.
pub open spec fn listed(body: Seq<char>, list_key: Seq<char>, item_key: Seq<char>) -> Seq<
    Seq<char>,
> {
    match json_array_len_of(body, list_key) {
        Some(n) => listed_upto(body, list_key, item_key, n as nat),
        None => Seq::empty(),
    }
}

/// The models that are offered for `provider` where no list can be
/// fetched.
pub open spec fn curated_models(provider: Seq<char>) -> Seq<Seq<char>> {
    if provider == "openrouter"@ {
        seq![
            "openai/gpt-4o"@,
            "google/gemini-2.0-flash-exp"@,
            "meta-llama/llama-3.3-70b-instruct"@,
        ]
    } else if provider == "ollama"@ {
        seq!["llama3.2"@, "llama3.1"@, "mistral"@, "codellama"@, "qwen2.5"@]
    } else if provider == "zai"@ {
        seq!["glm-5"@, "glm-4.7"@]
    } else {
        seq!["gpt-5"@, "gpt-5-mini"@, "gpt-4o"@, "gpt-4o-mini"@]
    }
}

/// What the user is asked for where the API key of `provider` is needed.
pub open spec fn api_key_prompt_of(provider: Seq<char>) -> Seq<char> {
    if provider == "openrouter"@ {
        "Enter your OpenRouter API Key"@
    } else if provider == "zai"@ {
        "Enter your Z.AI API Key"@
    } else {
        "Enter your OpenAI API key"@
    }
}

/// Where `provider` is reached, given the endpoint that the user chose,
/// which is empty where none was chosen.
///
/// Without an endpoint, the two providers with a fixed address get it
/// and the others get none. With one, the local provider is reached
/// there, `zai` is reached at the address that the endpoint names, and
/// any other provider is reached at the endpoint itself.
pub open spec fn base_url_of(provider: Seq<char>, endpoint: Seq<char>) -> Option<Seq<char>> {
    if endpoint.len() == 0 {
        if provider == "openai"@ {
            Some("https://api.openai.com/v1"@)
        } else if provider == "openrouter"@ {
            Some("https://openrouter.ai/api/v1"@)
        } else {
            None
        }
    } else if provider == "zai"@ {
        if endpoint == "coding"@ {
            Some("https://api.z.ai/api/coding/paas/v4"@)
        } else if endpoint == "general"@ {
            Some("https://api.z.ai/api/paas/v4"@)
        } else {
            Some(Seq::empty())
        }
    } else {
        Some(endpoint)
    }
}

/// Where the local provider is asked for its models: at the endpoint
/// that the user chose, or at its usual place where none was chosen. No
/// other provider is asked there.
pub open spec fn ollama_url_of(provider: Seq<char>, endpoint: Seq<char>) -> Option<Seq<char>> {
    if provider == "ollama"@ {
        if endpoint.len() == 0 {
            Some("http://localhost:11434"@)
        } else {
            Some(endpoint)
        }
    } else {
        None
    }
}

/// Whether a list of models kept at `kept_at` is still fresh at `now`,
/// both in seconds: it is for twelve hours. A list from the future is
/// not.
pub open spec fn cache_is_fresh(now: u64, kept_at: u64) -> bool {
    kept_at <= now && now - kept_at < MODEL_CACHE_TTL_SECS
}

/// The heading of step `step` of `total`.
pub open spec fn step_heading(step: nat, total: nat, title: Seq<char>) -> Seq<char> {
    "["@ + decimal(step) + "/"@ + decimal(total) + "] "@ + title
}

/// The names of the models that the answer `body` of a provider lists:
/// the strings under `item_key` of the items of its list `list_key`, in
/// the order of strings.
pub fn model_names(body: &str, list_key: &str, item_key: &str) -> (r: Vec<String>)
    ensures
        r.deep_view().to_multiset() == listed(body@, list_key@, item_key@).to_multiset(),
        sorted_texts(r.deep_view()),
{
    let mut names: Vec<String> = Vec::new();
    assert(names.deep_view() =~= Seq::<Seq<char>>::empty());
    match json_array_len(body, list_key) {
        Some(n) => {
            let mut i: usize = 0;
            while i < n
                invariant
                    i <= n,
                    names.deep_view() == listed_upto(body@, list_key@, item_key@, i as nat),
                decreases n - i,
            {
                let ghost before = names.deep_view();
                match json_item_str(body, list_key, i, item_key) {
                    Some(name) => {
                        names.push(name);
                        assert(names.deep_view() =~= before.push(name@));
                    },
                    None => {},
                }
                i += 1;
            }
        },
        None => {},
    }
    sort_strings(&mut names);
    names
}

/// The names of the models that OpenRouter lists in `body`.
pub fn openrouter_model_names(body: &str) -> (r: Vec<String>)
    ensures
        r.deep_view().to_multiset() == listed(body@, "data"@, "id"@).to_multiset(),
        sorted_texts(r.deep_view()),
{
    model_names(body, "data", "id")
}

/// The names of the models that Ollama lists in `body`.
pub fn ollama_model_names(body: &str) -> (r: Vec<String>)
    ensures
        r.deep_view().to_multiset() == listed(body@, "models"@, "name"@).to_multiset(),
        sorted_texts(r.deep_view()),
{
    model_names(body, "models", "name")
}

/// The models that are offered for `provider` where no list can be
/// fetched.
pub fn get_curated_models(provider: &str) -> (r: Vec<String>)
    ensures
        r.deep_view() == curated_models(provider@),
{
    let mut models: Vec<String> = Vec::new();
    if str_eq(provider, "openrouter") {
        models.push("openai/gpt-4o".to_owned());
        models.push("google/gemini-2.0-flash-exp".to_owned());
        models.push("meta-llama/llama-3.3-70b-instruct".to_owned());
    } else if str_eq(provider, "ollama") {
        models.push("llama3.2".to_owned());
        models.push("llama3.1".to_owned());
        models.push("mistral".to_owned());
        models.push("codellama".to_owned());
        models.push("qwen2.5".to_owned());
    } else if str_eq(provider, "zai") {
        models.push("glm-5".to_owned());
        models.push("glm-4.7".to_owned());
    } else {
        models.push("gpt-5".to_owned());
        models.push("gpt-5-mini".to_owned());
        models.push("gpt-4o".to_owned());
        models.push("gpt-4o-mini".to_owned());
    }
    assert(models.deep_view() =~= curated_models(provider@));
    models
}

/// What the user is asked for where the API key of `provider` is needed.
pub fn api_key_prompt(provider: &str) -> (r: String)
    ensures
        r@ == api_key_prompt_of(provider@),
{
    if str_eq(provider, "openrouter") {
        "Enter your OpenRouter API Key".to_owned()
    } else if str_eq(provider, "zai") {
        "Enter your Z.AI API Key".to_owned()
    } else {
        "Enter your OpenAI API key".to_owned()
    }
}

/// Whether `provider` needs an API key: every provider but the local one
/// does.
pub fn needs_api_key(provider: &str) -> (r: bool)
    ensures
        r == (provider@ != "ollama"@),
{
    !str_eq(provider, "ollama")
}

/// Where `provider` is reached, given the endpoint that the user chose.
pub fn base_url(provider: &str, endpoint: &str) -> (r: Option<String>)
    ensures
        r.deep_view() == base_url_of(provider@, endpoint@),
{
    if endpoint.is_empty() {
        if str_eq(provider, "openai") {
            Some("https://api.openai.com/v1".to_owned())
        } else if str_eq(provider, "openrouter") {
            Some("https://openrouter.ai/api/v1".to_owned())
        } else {
            None
        }
    } else if str_eq(provider, "zai") {
        if str_eq(endpoint, "coding") {
            Some("https://api.z.ai/api/coding/paas/v4".to_owned())
        } else if str_eq(endpoint, "general") {
            Some("https://api.z.ai/api/paas/v4".to_owned())
        } else {
            Some(String::new())
        }
    } else {
        Some(endpoint.to_owned())
    }
}

/// Where the local provider is asked for its models.
pub fn ollama_url(provider: &str, endpoint: &str) -> (r: Option<String>)
    ensures
        r.deep_view() == ollama_url_of(provider@, endpoint@),
{
    if str_eq(provider, "ollama") {
        if endpoint.is_empty() {
            Some("http://localhost:11434".to_owned())
        } else {
            Some(endpoint.to_owned())
        }
    } else {
        None
    }
}

/// Whether a list of models kept at `kept_at` is still fresh at `now`.
pub fn model_cache_is_fresh(now: u64, kept_at: u64) -> (r: bool)
    ensures
        r == cache_is_fresh(now, kept_at),
{
    kept_at <= now && now - kept_at < MODEL_CACHE_TTL_SECS
}

/// How many models of a list of `count` are not shown.
pub fn models_not_shown(count: usize) -> (r: usize)
    ensures
        r == if count > MODEL_PREVIEW_LIMIT {
            count - MODEL_PREVIEW_LIMIT
        } else {
            0
        },
{
    if count > MODEL_PREVIEW_LIMIT {
        count - MODEL_PREVIEW_LIMIT
    } else {
        0
    }
}

/// The heading of step `step` of `total`.
pub fn print_step(step: usize, total: usize, title: &str) -> (r: String)
    ensures
        r@ == step_heading(step as nat, total as nat, title@),
{
    let mut heading = "[".to_owned();
    heading.append(decimal_string(step).as_str());
    heading.append("/");
    heading.append(decimal_string(total).as_str());
    heading.append("] ");
    heading.append(title);
    heading
}

} // verus!
