//! Backend abstraction: the capability trait every inference backend
//! implements, a single-chunk stream wrapper, and a routing stub that
//! answers with a structured placeholder instead of a live backend.
use vstd::prelude::*;
use vstd::string::StringExecFns;
use crate::types::MarsError;

verus! {

/// A finite, non-restartable stream of response text. A backend without
/// true incremental streaming yields the whole completion as one chunk,
/// which is a legal degradation.
pub struct ModelStream {
    pub content: String,
    pub position: usize,
}

impl ModelStream {
    /// A stream positioned at the start of `content`.
    pub fn new(content: String) -> (r: ModelStream)
        ensures
            r.content == content,
            r.position == 0,
    {
        ModelStream { content, position: 0 }
    }

    /// The next chunk: the full remaining content in one piece, or nothing
    /// once the stream is exhausted.
    pub fn next_chunk(&mut self) -> (r: Option<String>)
        ensures
            final(self).content == old(self).content,
            old(self).position >= old(self).content@.len() ==> {
                &&& r is None
                &&& final(self).position == old(self).position
            },
            old(self).position < old(self).content@.len() ==> {
                &&& (r matches Some(chunk) && chunk@ == old(self).content@)
                &&& final(self).position == old(self).content@.len()
            },
    {
        let len = self.content.as_str().unicode_len();
        if self.position >= len {
            return None;
        }
        let chunk = self.content.clone();
        self.position = len;
        Some(chunk)
    }
}

/// What a backend answered when asked for several parallel completions in
/// one request.
pub enum MultiOutcome {
    /// The backend supports multi-completion and returned these texts.
    Completions(Vec<String>),
    /// The backend does not support multi-completion responses.
    Unsupported,
    /// The backend supports it but the request failed.
    Failed(String),
}

/// The capability contract every inference backend implements. All higher
/// layers depend only on this trait, never on a concrete backend.
pub trait LLMProvider {
    /// Complete a prompt and return the full response text.
    fn complete(&self, prompt: &str, system_prompt: Option<&str>) -> Result<
        String,
        MarsError,
    >;

    /// Stream a response; a backend may yield it as a single chunk.
    fn stream(&self, prompt: &str, system_prompt: Option<&str>) -> Result<
        ModelStream,
        MarsError,
    >;

    /// Ask for `n` parallel completions in one request; a backend that
    /// cannot answers `Unsupported`.
    fn complete_many(&self, prompt: &str, system_prompt: Option<&str>, n: usize)
        -> MultiOutcome;

    /// Provider name for diagnostics.
    fn provider_name(&self) -> &str;

    /// Model name for diagnostics.
    fn model_name(&self) -> &str;
}

/// A routing stub for a multi-provider gateway: it echoes the routing
/// metadata and the prompt as a structured placeholder response.
pub struct LiteLLMRouter {
    /// Provider name, e.g. `openai`.
    pub provider: String,
    /// Model identifier.
    pub model: String,
    /// API key held for the eventual live integration.
    pub api_key: String,
}

/// The view of the text `LiteLLMRouter` answers: the optional system
/// prefix, the routing tag, then the prompt itself.
pub open spec fn routed_response_view(
    provider: Seq<char>,
    model: Seq<char>,
    prompt: Seq<char>,
    system: Option<Seq<char>>,
) -> Seq<char> {
    let prefix = match system {
        Some(s) => "[SYSTEM: "@ + s + "] "@,
        None => Seq::<char>::empty(),
    };
    prefix + "[Response from "@ + provider + "/"@ + model + "] "@ + prompt
}

impl LiteLLMRouter {
    /// A router for the given provider and model.
    pub fn new(provider: String, model: String, api_key: String) -> (r: LiteLLMRouter)
        ensures
            r.provider == provider,
            r.model == model,
            r.api_key == api_key,
    {
        LiteLLMRouter { provider, model, api_key }
    }

    /// The placeholder response text for a prompt.
    pub fn routed_response(&self, prompt: &str, system_prompt: Option<&str>) -> (r: String)
        ensures
            r@ == routed_response_view(
                self.provider@,
                self.model@,
                prompt@,
                match system_prompt {
                    Some(s) => Some(s@),
                    None => None,
                },
            ),
    {
        let mut out = String::new();
        match system_prompt {
            Some(s) => {
                out.append("[SYSTEM: ");
                out.append(s);
                out.append("] ");
            },
            None => {},
        }
        out.append("[Response from ");
        out.append(self.provider.as_str());
        out.append("/");
        out.append(self.model.as_str());
        out.append("] ");
        out.append(prompt);
        proof {
            assert(out@ =~= routed_response_view(
                self.provider@,
                self.model@,
                prompt@,
                match system_prompt {
                    Some(s) => Some(s@),
                    None => None,
                },
            ));
        }
        out
    }
}

impl LLMProvider for LiteLLMRouter {
    fn complete(&self, prompt: &str, system_prompt: Option<&str>) -> Result<
        String,
        MarsError,
    > {
        Ok(self.routed_response(prompt, system_prompt))
    }

    fn stream(&self, prompt: &str, system_prompt: Option<&str>) -> Result<
        ModelStream,
        MarsError,
    > {
        let content = self.routed_response(prompt, system_prompt);
        Ok(ModelStream::new(content))
    }

    fn complete_many(&self, _prompt: &str, _system_prompt: Option<&str>, _n: usize)
        -> MultiOutcome {
        MultiOutcome::Unsupported
    }

    fn provider_name(&self) -> (r: &str) {
        self.provider.as_str()
    }

    fn model_name(&self) -> (r: &str) {
        self.model.as_str()
    }
}

} // verus!
