//! Prompt composition, the generic request, and the fixed-template tasks
//! built on it.

use vstd::prelude::*;
use crate::extract::{extract_url, extracted_url};
use crate::process::{agent_args, agent_invocation, arg_views, AgentError, Invocation, AGENT_PROGRAM};
use crate::text::trimmed;

verus! {

/// The blank line that separates a context from the prompt after it.
pub open spec fn separator() -> Seq<char> {
    seq!['\n', '\n']
}

/// The text handed to the agent: the context, a blank line, then the
/// prompt; the prompt alone where there is no context.
pub open spec fn composed(prompt: Seq<char>, context: Option<Seq<char>>) -> Seq<char> {
    match context {
        Some(c) => c + separator() + prompt,
        None => prompt,
    }
}

/// The characters of an optional text.
pub open spec fn opt_view(t: Option<String>) -> Option<Seq<char>> {
    match t {
        Some(s) => Some(s@),
        None => None,
    }
}

/// Builds the text handed to the agent from a prompt and an optional
/// context.
pub fn compose(prompt: &str, context: Option<&str>) -> (r: String)
    ensures
        context is None ==> r@ == prompt@,
        context matches Some(c) ==> r@ == c@ + separator() + prompt@,
{
    match context {
        None => String::from_str(prompt),
        Some(c) => {
            let mut r = String::from_str(c);
            proof {
                reveal_strlit("\n\n");
            }
            r.append("\n\n");
            r.append(prompt);
            r
        },
    }
}

/// A request to the agent. `max_tokens` is accepted for later use; it is not
/// passed on to the agent.
pub struct Request {
    pub prompt: String,
    pub context: Option<String>,
    pub max_tokens: Option<u32>,
}

impl Request {
    /// The text that this request hands to the agent.
    pub fn composed_prompt(&self) -> (r: String)
        ensures
            r@ == composed(self.prompt@, opt_view(self.context)),
    {
        match &self.context {
            Some(c) => compose(self.prompt.as_str(), Some(c.as_str())),
            None => compose(self.prompt.as_str(), None),
        }
    }

    /// The command line that runs this request.
    pub fn invocation(&self) -> (r: Invocation)
        ensures
            r.program@ == AGENT_PROGRAM@,
            arg_views(r.args@) == agent_args(composed(self.prompt@, opt_view(self.context))),
    {
        let p = self.composed_prompt();
        agent_invocation(p.as_str())
    }
}

/// Instruction that asks for a clearer, grammatical version of a text with
/// its meaning and tone kept.
pub const IMPROVE_INSTRUCTION: &'static str = "다음 텍스트를 더 나은 문장으로 개선해주세요. 원래의 의미와 톤은 유지하되, 문법과 표현을 향상시켜주세요:";

/// Instruction that asks for a natural continuation of a story.
pub const CONTINUE_INSTRUCTION: &'static str = "이야기를 자연스럽게 이어서 작성해주세요.";

/// Instruction that asks for feedback on a story's characters, plot and
/// structure.
pub const ANALYZE_INSTRUCTION: &'static str = "다음 스토리를 분석하고 캐릭터, 플롯, 구조에 대한 피드백을 제공해주세요:";

/// Instruction that asks for an image and for its URL alone; the image
/// prompt follows it.
pub const IMAGE_INSTRUCTION: &'static str = "Please generate an image using DALL-E 3 with the following prompt and return ONLY the image URL (nothing else):\n\nPrompt: ";

/// Introduces the requested image size.
pub const IMAGE_SIZE_LABEL: &'static str = "\nSize: ";

/// The operations offered to the front end, each a fixed template around
/// the caller's text.
pub enum Task {
    ImproveText { text: String },
    ContinueStory { context: String },
    AnalyzeStory { text: String },
    GenerateImage { prompt: String, size: String },
}

/// The request that each task makes.
pub open spec fn task_request(task: Task) -> (Seq<char>, Option<Seq<char>>, Option<u32>) {
    match task {
        Task::ImproveText { text } => (
            IMPROVE_INSTRUCTION@ + separator() + text@,
            None,
            Some(1024u32),
        ),
        Task::ContinueStory { context } => (CONTINUE_INSTRUCTION@, Some(context@), Some(2048u32)),
        Task::AnalyzeStory { text } => (
            ANALYZE_INSTRUCTION@ + separator() + text@,
            None,
            Some(2048u32),
        ),
        Task::GenerateImage { prompt, size } => (
            IMAGE_INSTRUCTION@ + prompt@ + IMAGE_SIZE_LABEL@ + size@,
            None,
            None,
        ),
    }
}

impl Task {
    /// The request that the operation sends to the agent.
    pub fn request(&self) -> (r: Request)
        ensures
            (r.prompt@, opt_view(r.context), r.max_tokens) == task_request(*self),
    {
        match self {
            Task::ImproveText { text } => Request {
                prompt: compose(text.as_str(), Some(IMPROVE_INSTRUCTION)),
                context: None,
                max_tokens: Some(1024),
            },
            Task::ContinueStory { context } => Request {
                prompt: String::from_str(CONTINUE_INSTRUCTION),
                context: Some(context.clone()),
                max_tokens: Some(2048),
            },
            Task::AnalyzeStory { text } => Request {
                prompt: compose(text.as_str(), Some(ANALYZE_INSTRUCTION)),
                context: None,
                max_tokens: Some(2048),
            },
            Task::GenerateImage { prompt, size } => {
                let mut p = String::from_str(IMAGE_INSTRUCTION);
                p.append(prompt.as_str());
                p.append(IMAGE_SIZE_LABEL);
                p.append(size.as_str());
                Request { prompt: p, context: None, max_tokens: None }
            },
        }
    }

    /// Post-processes the agent's response for the operation: an image
    /// request keeps only the URL in the reply; the others pass it on
    /// unchanged, as all of them pass on an error.
    pub fn finish(&self, response: Result<String, AgentError>) -> (r: Result<String, AgentError>)
        ensures
            !(*self is GenerateImage) ==> r == response,
            response is Err ==> r == response,
            *self is GenerateImage && response is Ok ==> match extracted_url(response->Ok_0@) {
                Some(u) => r matches Ok(s) && s@ == u,
                None => r matches Err(AgentError::ExtractionFailure(d)) && d@ == trimmed(
                    response->Ok_0@,
                ),
            },
    {
        match self {
            Task::GenerateImage { .. } => match response {
                Ok(text) => extract_url(text.as_str()),
                Err(e) => Err(e),
            },
            _ => response,
        }
    }
}

} // verus!
