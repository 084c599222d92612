//! The endpoints that a channel has by its provider type alone.
use vstd::prelude::*;

use crate::channel::{Channel, ChannelEndpoint, ChannelType};

verus! {

pub const OPENAI_COMPATIBLE: [&'static str; 6] = [
    "openai/chat_completions",
    "openai/embeddings",
    "openai/image_generation",
    "openai/image_edit",
    "openai/image_variation",
    "openai/video",
];

pub const OPENAI_FULL: [&'static str; 9] = [
    "openai/chat_completions",
    "openai/embeddings",
    "openai/image_generation",
    "openai/image_edit",
    "openai/image_variation",
    "openai/video",
    "openai/audio_speech",
    "openai/audio_transcriptions",
    "openai/audio_translations",
];

pub const OPENAI_CHAT: [&'static str; 1] = ["openai/chat_completions"];

pub const OPENAI_RESPONSES: [&'static str; 1] = ["openai/responses"];

pub const CODEX: [&'static str; 3] = [
    "openai/responses",
    "openai/image_generation",
    "openai/image_edit",
];

pub const ANTHROPIC: [&'static str; 1] = ["anthropic/messages"];

pub const GEMINI: [&'static str; 2] = ["gemini/contents", "gemini/embeddings"];

pub const DEEPSEEK: [&'static str; 2] = ["openai/chat_completions", "openai/completions"];

pub const DOUBAO: [&'static str; 2] = ["openai/chat_completions", "seedance/video"];

pub const OPENROUTER: [&'static str; 4] = [
    "openai/chat_completions",
    "openai/audio_speech",
    "openai/audio_transcriptions",
    "openai/audio_translations",
];

pub const JINA: [&'static str; 2] = ["jina/rerank", "jina/embeddings"];

pub const ANTIGRAVITY: [&'static str; 1] = ["gemini/contents"];

pub const OLLAMA: [&'static str; 1] = ["ollama/chat"];

/// The API formats that a provider type speaks, in order.
pub open spec fn default_formats(channel_type: ChannelType) -> Seq<&'static str> {
    match channel_type {
        ChannelType::Openai | ChannelType::Nanogpt => OPENAI_FULL@,
        ChannelType::Atlascloud
        | ChannelType::Vercel
        | ChannelType::Deepinfra
        | ChannelType::Ppio
        | ChannelType::Siliconflow
        | ChannelType::Aihubmix
        | ChannelType::Burncloud
        | ChannelType::Github
        | ChannelType::Evolink => OPENAI_COMPATIBLE@,
        ChannelType::OpenaiResponses | ChannelType::NanogptResponses => OPENAI_RESPONSES@,
        ChannelType::Codex => CODEX@,
        ChannelType::GeminiOpenai
        | ChannelType::Qiniu
        | ChannelType::Fireworks
        | ChannelType::Moonshot
        | ChannelType::Zhipu
        | ChannelType::Zai
        | ChannelType::OpenaiFake
        | ChannelType::Xiaomi
        | ChannelType::Xai
        | ChannelType::Volcengine
        | ChannelType::Longcat
        | ChannelType::Minimax
        | ChannelType::Modelscope
        | ChannelType::Bailian
        | ChannelType::GithubCopilot
        | ChannelType::Cerebras
        | ChannelType::OpencodeGo => OPENAI_CHAT@,
        ChannelType::Gemini | ChannelType::GeminiVertex => GEMINI@,
        ChannelType::Deepseek => DEEPSEEK@,
        ChannelType::Doubao => DOUBAO@,
        ChannelType::Openrouter => OPENROUTER@,
        ChannelType::Jina => JINA@,
        ChannelType::Antigravity => ANTIGRAVITY@,
        ChannelType::Ollama => OLLAMA@,
        ChannelType::Anthropic
        | ChannelType::AnthropicAws
        | ChannelType::AnthropicGcp
        | ChannelType::DeepseekAnthropic
        | ChannelType::DoubaoAnthropic
        | ChannelType::MoonshotAnthropic
        | ChannelType::ZhipuAnthropic
        | ChannelType::ZaiAnthropic
        | ChannelType::AnthropicFake
        | ChannelType::XiaomiAnthropic
        | ChannelType::VolcengineAnthropic
        | ChannelType::LongcatAnthropic
        | ChannelType::MinimaxAnthropic
        | ChannelType::AihubmixAnthropic
        | ChannelType::BailianAnthropic
        | ChannelType::MoonshotCoding
        | ChannelType::Claudecode
        | ChannelType::OpencodeGoAnthropic
        | ChannelType::EvolinkAnthropic => ANTHROPIC@,
    }
}

/// `endpoints` has one endpoint per format, in order, with nothing overridden.
pub open spec fn plain_endpoints(
    endpoints: Seq<ChannelEndpoint>,
    formats: Seq<&'static str>,
) -> bool {
    &&& endpoints.len() == formats.len()
    &&& forall|i: int|
        0 <= i < formats.len() ==> {
            let endpoint = #[trigger] endpoints[i];
            &&& endpoint.api_format@ == formats[i]@
            &&& endpoint.path is Some && endpoint.path->0@ == Seq::<char>::empty()
            &&& endpoint.base_url is Some && endpoint.base_url->0@ == Seq::<char>::empty()
            &&& endpoint.transport is Some && endpoint.transport->0@ == Seq::<char>::empty()
        }
}

fn endpoints_for<const N: usize>(formats: [&'static str; N]) -> (endpoints: Vec<ChannelEndpoint>)
    ensures
        plain_endpoints(endpoints@, formats@),
{
    let mut endpoints: Vec<ChannelEndpoint> = Vec::new();
    let mut i: usize = 0;
    while i < N
        invariant
            i <= N,
            formats@.len() == N,
            plain_endpoints(endpoints@, formats@.take(i as int)),
        decreases N - i,
    {
        endpoints.push(
            ChannelEndpoint {
                api_format: formats[i].to_owned(),
                path: Some(String::new()),
                base_url: Some(String::new()),
                transport: Some(String::new()),
            },
        );
        i += 1;
    }
    assert(formats@.take(i as int) =~= formats@);
    endpoints
}

/// The endpoints that a provider type has before anything is configured.
pub fn default_channel_endpoints(channel_type: ChannelType) -> (endpoints: Vec<ChannelEndpoint>)
    ensures
        plain_endpoints(endpoints@, default_formats(channel_type)),
{
    match channel_type {
        ChannelType::Openai | ChannelType::Nanogpt => endpoints_for(OPENAI_FULL),
        ChannelType::Atlascloud
        | ChannelType::Vercel
        | ChannelType::Deepinfra
        | ChannelType::Ppio
        | ChannelType::Siliconflow
        | ChannelType::Aihubmix
        | ChannelType::Burncloud
        | ChannelType::Github
        | ChannelType::Evolink => endpoints_for(OPENAI_COMPATIBLE),
        ChannelType::OpenaiResponses | ChannelType::NanogptResponses => endpoints_for(
            OPENAI_RESPONSES,
        ),
        ChannelType::Codex => endpoints_for(CODEX),
        ChannelType::Anthropic
        | ChannelType::AnthropicAws
        | ChannelType::AnthropicGcp
        | ChannelType::DeepseekAnthropic
        | ChannelType::DoubaoAnthropic
        | ChannelType::MoonshotAnthropic
        | ChannelType::ZhipuAnthropic
        | ChannelType::ZaiAnthropic
        | ChannelType::AnthropicFake
        | ChannelType::XiaomiAnthropic
        | ChannelType::VolcengineAnthropic
        | ChannelType::LongcatAnthropic
        | ChannelType::MinimaxAnthropic
        | ChannelType::AihubmixAnthropic
        | ChannelType::BailianAnthropic
        | ChannelType::MoonshotCoding
        | ChannelType::Claudecode
        | ChannelType::OpencodeGoAnthropic
        | ChannelType::EvolinkAnthropic => endpoints_for(ANTHROPIC),
        ChannelType::GeminiOpenai
        | ChannelType::Qiniu
        | ChannelType::Fireworks
        | ChannelType::Moonshot
        | ChannelType::Zhipu
        | ChannelType::Zai
        | ChannelType::OpenaiFake
        | ChannelType::Xiaomi
        | ChannelType::Xai
        | ChannelType::Volcengine
        | ChannelType::Longcat
        | ChannelType::Minimax
        | ChannelType::Modelscope
        | ChannelType::Bailian
        | ChannelType::GithubCopilot
        | ChannelType::Cerebras
        | ChannelType::OpencodeGo => endpoints_for(OPENAI_CHAT),
        ChannelType::Gemini | ChannelType::GeminiVertex => endpoints_for(GEMINI),
        ChannelType::Deepseek => endpoints_for(DEEPSEEK),
        ChannelType::Doubao => endpoints_for(DOUBAO),
        ChannelType::Openrouter => endpoints_for(OPENROUTER),
        ChannelType::Jina => endpoints_for(JINA),
        ChannelType::Antigravity => endpoints_for(ANTIGRAVITY),
        ChannelType::Ollama => endpoints_for(OLLAMA),
    }
}

impl Channel {
    /// The built-in endpoints of this channel's provider type, as opposed to
    /// those configured in `endpoints`.
    pub fn default_endpoints(&self) -> (endpoints: Vec<ChannelEndpoint>)
        ensures
            plain_endpoints(endpoints@, default_formats(self.channel_type)),
    {
        default_channel_endpoints(self.channel_type)
    }
}

/// Every provider type has an endpoint.
pub proof fn every_channel_type_has_an_endpoint(channel_type: ChannelType)
    ensures
        default_formats(channel_type).len() > 0,
{
}

/// Which formats the endpoints of each provider type speak, in order.
pub proof fn endpoints_speak_the_formats_of_their_provider(
    channel_type: ChannelType,
    endpoints: Seq<ChannelEndpoint>,
)
    requires
        plain_endpoints(endpoints, default_formats(channel_type)),
    ensures
        (channel_type is Openai || channel_type is Nanogpt) ==> {
            &&& endpoints.len() == 9
            &&& endpoints[0].api_format@ == "openai/chat_completions"@
            &&& endpoints[1].api_format@ == "openai/embeddings"@
            &&& endpoints[2].api_format@ == "openai/image_generation"@
            &&& endpoints[3].api_format@ == "openai/image_edit"@
            &&& endpoints[4].api_format@ == "openai/image_variation"@
            &&& endpoints[5].api_format@ == "openai/video"@
            &&& endpoints[6].api_format@ == "openai/audio_speech"@
            &&& endpoints[7].api_format@ == "openai/audio_transcriptions"@
            &&& endpoints[8].api_format@ == "openai/audio_translations"@
        },
        (channel_type is Atlascloud || channel_type is Vercel || channel_type is Deepinfra || channel_type is Ppio || channel_type is Siliconflow || channel_type is Aihubmix || channel_type is Burncloud || channel_type is Github || channel_type is Evolink) ==> {
            &&& endpoints.len() == 6
            &&& endpoints[0].api_format@ == "openai/chat_completions"@
            &&& endpoints[1].api_format@ == "openai/embeddings"@
            &&& endpoints[2].api_format@ == "openai/image_generation"@
            &&& endpoints[3].api_format@ == "openai/image_edit"@
            &&& endpoints[4].api_format@ == "openai/image_variation"@
            &&& endpoints[5].api_format@ == "openai/video"@
        },
        (channel_type is OpenaiResponses || channel_type is NanogptResponses) ==> {
            &&& endpoints.len() == 1
            &&& endpoints[0].api_format@ == "openai/responses"@
        },
        (channel_type is Codex) ==> {
            &&& endpoints.len() == 3
            &&& endpoints[0].api_format@ == "openai/responses"@
            &&& endpoints[1].api_format@ == "openai/image_generation"@
            &&& endpoints[2].api_format@ == "openai/image_edit"@
        },
        (channel_type is GeminiOpenai || channel_type is Qiniu || channel_type is Fireworks || channel_type is Moonshot || channel_type is Zhipu || channel_type is Zai || channel_type is OpenaiFake || channel_type is Xiaomi || channel_type is Xai || channel_type is Volcengine || channel_type is Longcat || channel_type is Minimax || channel_type is Modelscope || channel_type is Bailian || channel_type is GithubCopilot || channel_type is Cerebras || channel_type is OpencodeGo) ==> {
            &&& endpoints.len() == 1
            &&& endpoints[0].api_format@ == "openai/chat_completions"@
        },
        (channel_type is Gemini || channel_type is GeminiVertex) ==> {
            &&& endpoints.len() == 2
            &&& endpoints[0].api_format@ == "gemini/contents"@
            &&& endpoints[1].api_format@ == "gemini/embeddings"@
        },
        (channel_type is Deepseek) ==> {
            &&& endpoints.len() == 2
            &&& endpoints[0].api_format@ == "openai/chat_completions"@
            &&& endpoints[1].api_format@ == "openai/completions"@
        },
        (channel_type is Doubao) ==> {
            &&& endpoints.len() == 2
            &&& endpoints[0].api_format@ == "openai/chat_completions"@
            &&& endpoints[1].api_format@ == "seedance/video"@
        },
        (channel_type is Openrouter) ==> {
            &&& endpoints.len() == 4
            &&& endpoints[0].api_format@ == "openai/chat_completions"@
            &&& endpoints[1].api_format@ == "openai/audio_speech"@
            &&& endpoints[2].api_format@ == "openai/audio_transcriptions"@
            &&& endpoints[3].api_format@ == "openai/audio_translations"@
        },
        (channel_type is Jina) ==> {
            &&& endpoints.len() == 2
            &&& endpoints[0].api_format@ == "jina/rerank"@
            &&& endpoints[1].api_format@ == "jina/embeddings"@
        },
        (channel_type is Antigravity) ==> {
            &&& endpoints.len() == 1
            &&& endpoints[0].api_format@ == "gemini/contents"@
        },
        (channel_type is Ollama) ==> {
            &&& endpoints.len() == 1
            &&& endpoints[0].api_format@ == "ollama/chat"@
        },
        (channel_type is Anthropic || channel_type is AnthropicAws || channel_type is AnthropicGcp || channel_type is DeepseekAnthropic || channel_type is DoubaoAnthropic || channel_type is MoonshotAnthropic || channel_type is ZhipuAnthropic || channel_type is ZaiAnthropic || channel_type is AnthropicFake || channel_type is XiaomiAnthropic || channel_type is VolcengineAnthropic || channel_type is LongcatAnthropic || channel_type is MinimaxAnthropic || channel_type is AihubmixAnthropic || channel_type is BailianAnthropic || channel_type is MoonshotCoding || channel_type is Claudecode || channel_type is OpencodeGoAnthropic || channel_type is EvolinkAnthropic) ==> {
            &&& endpoints.len() == 1
            &&& endpoints[0].api_format@ == "anthropic/messages"@
        },
{
    let formats = default_formats(channel_type);
    assert(formats.len() == endpoints.len());
    assert forall|i: int| 0 <= i < endpoints.len() implies (#[trigger] endpoints[i]).api_format@
        == formats[i]@ by {}
}

/// The endpoints of a provider type leave path, address and transport empty.
pub proof fn default_endpoints_override_nothing(
    channel_type: ChannelType,
    endpoints: Seq<ChannelEndpoint>,
    i: int,
)
    requires
        plain_endpoints(endpoints, default_formats(channel_type)),
        0 <= i < endpoints.len(),
    ensures
        endpoints[i].path matches Some(path) && path@.len() == 0,
        endpoints[i].base_url matches Some(url) && url@.len() == 0,
        endpoints[i].transport matches Some(transport) && transport@.len() == 0,
{
}

} // verus!
