//! Choosing the chat-completion model, and reading the completion's answer.
use vstd::prelude::*;
use crate::text::{trim_of, trimmed};

verus! {

/// The models a chat may choose, in the order they are offered.
pub open spec fn available_models() -> Seq<Seq<char>> {
    seq!["gpt-4o"@, "gpt-4o-mini"@, "gpt-4"@, "gpt-4-turbo"@, "gpt-3.5-turbo"@, "o1-preview"@, "o1-mini"@]
}

/// The model used where neither the chat nor the environment names one.
pub open spec fn fallback_model() -> Seq<char> {
    "gpt-4o"@
}

/// Most tokens a completion may produce.
pub const MAX_COMPLETION_TOKENS: u32 = 500;

/// The models a chat may choose.
pub fn get_available_models() -> (r: Vec<String>)
    ensures
        r@.len() == available_models().len(),
        forall|i: int| 0 <= i < r@.len() ==> #[trigger] r@[i]@ == available_models()[i],
{
    let r = vec![
        String::from_str("gpt-4o"),
        String::from_str("gpt-4o-mini"),
        String::from_str("gpt-4"),
        String::from_str("gpt-4-turbo"),
        String::from_str("gpt-3.5-turbo"),
        String::from_str("o1-preview"),
        String::from_str("o1-mini"),
    ];
    assert(r@.len() == 7);
    r
}

/// Whether `name` is one of the models a chat may choose.
pub fn is_available_model(name: &str) -> (r: bool)
    ensures
        r == available_models().contains(name@),
{
    let models = get_available_models();
    let mut i: usize = 0;
    while i < models.len()
        invariant
            i <= models@.len(),
            models@.len() == available_models().len(),
            forall|j: int| 0 <= j < models@.len() ==> #[trigger] models@[j]@ == available_models()[j],
            forall|j: int| 0 <= j < i ==> available_models()[j] != name@,
        decreases models@.len() - i,
    {
        if crate::text::same_text(models[i].as_str(), name) {
            assert(available_models()[i as int] == name@);
            return true;
        }
        i = i + 1;
    }
    false
}

/// A model change: the name where a chat may choose it, else the models it
/// may choose.
pub fn validate_model(name: &str) -> (r: Result<String, Vec<String>>)
    ensures
        available_models().contains(name@) ==> (r matches Ok(m) && m@ == name@),
        !available_models().contains(name@) ==> (r matches Err(l)
            && l@.len() == available_models().len()
            && forall|i: int| 0 <= i < l@.len() ==> #[trigger] l@[i]@ == available_models()[i]),
{
    if is_available_model(name) {
        Ok(String::from_str(name))
    } else {
        Err(get_available_models())
    }
}

/// The default model: `configured`, the environment's setting, where there
/// is one, else "gpt-4o".
pub fn default_model(configured: Option<String>) -> (r: String)
    ensures
        r@ == match configured {
            Some(m) => m@,
            None => fallback_model(),
        },
{
    match configured {
        Some(m) => m,
        None => String::from_str("gpt-4o"),
    }
}

/// A chat's model: the one stored for it, where the store gave one, else
/// the default.
pub fn resolve_model(stored: Option<String>, default: String) -> (r: String)
    ensures
        r == match stored {
            Some(m) => m,
            None => default,
        },
{
    match stored {
        Some(m) => m,
        None => default,
    }
}

/// The answer of a completion, from the content of its first choice
/// (`None` where there is no choice, `Some(None)` where it has no content):
/// the content trimmed, or the reason there is none.
pub fn completion_text(first_content: Option<Option<String>>) -> (r: Result<String, String>)
    ensures
        first_content is None ==> (r matches Err(m) && m@ == "No response from OpenAI"@),
        first_content matches Some(None) ==> (r matches Err(m) && m@ == "No content in OpenAI response"@),
        first_content matches Some(Some(c)) ==> (r matches Ok(t) && t@ == trim_of(c@)),
{
    match first_content {
        None => Err(String::from_str("No response from OpenAI")),
        Some(None) => Err(String::from_str("No content in OpenAI response")),
        Some(Some(c)) => Ok(String::from_str(trimmed(c.as_str()))),
    }
}

} // verus!
