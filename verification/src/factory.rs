//! Factory configuration: how the framework, its agents and their tool
//! runtimes are set up.

use vstd::prelude::*;
use crate::text::opt_text;

verus! {

/// Framework-level configuration.
#[derive(Debug, Clone)]
pub struct FactoryConfig {
    pub factory_discovery_url: String,
    pub factory_evaluation_service_url: Option<String>,
    pub factory_memory_service_url: Option<String>,
}

pub struct FactoryConfigView {
    pub factory_discovery_url: Seq<char>,
    pub factory_evaluation_service_url: Option<Seq<char>>,
    pub factory_memory_service_url: Option<Seq<char>>,
}

impl View for FactoryConfig {
    type V = FactoryConfigView;

    open spec fn view(&self) -> FactoryConfigView {
        FactoryConfigView {
            factory_discovery_url: self.factory_discovery_url@,
            factory_evaluation_service_url: opt_text(self.factory_evaluation_service_url),
            factory_memory_service_url: opt_text(self.factory_memory_service_url),
        }
    }
}

/// What an agent is for.
#[derive(Debug, Clone, Copy, PartialEq, Eq, Structural)]
pub enum AgentType {
    Specialist,
    Planner,
    Executor,
}

/// The domain of a specialist agent.
#[derive(Debug, Clone, Copy, PartialEq, Eq, Structural)]
pub enum AgentDomain {
    General,
    Finance,
    Customer,
    Weather,
}

/// The provider of the language model, named by its chat-completions
/// endpoint.
#[derive(Debug, Clone, Copy, PartialEq, Eq, Structural)]
pub enum LlmProviderUrl {
    Groq,
    Google,
    LlamaCpp,
}

impl LlmProviderUrl {
    /// The endpoint of this provider.
    pub open spec fn url(self) -> Seq<char> {
        match self {
            LlmProviderUrl::Groq => "https://api.groq.com/openai/v1/chat/completions"@,
            LlmProviderUrl::Google =>
                "https://generativelanguage.googleapis.com/v1beta/openai/chat/completions"@,
            LlmProviderUrl::LlamaCpp => "http://localhost:2000/v1/chat/completions"@,
        }
    }

    /// The endpoint of this provider, as text.
    pub fn to_string(&self) -> (url: String)
        ensures
            url@ == self.url(),
    {
        match self {
            LlmProviderUrl::Groq => "https://api.groq.com/openai/v1/chat/completions".to_string(),
            LlmProviderUrl::Google =>
                "https://generativelanguage.googleapis.com/v1beta/openai/chat/completions".to_string(),
            LlmProviderUrl::LlamaCpp => "http://localhost:2000/v1/chat/completions".to_string(),
        }
    }
}

/// The tool runtime of an agent: the model that drives it and the server it talks to.
#[derive(Debug, Clone)]
pub struct FactoryMcpRuntimeConfig {
    pub factory_mcp_llm_provider_url: LlmProviderUrl,
    pub factory_mcp_llm_provider_api_key: String,
    pub factory_mcp_llm_model_id: String,
    pub factory_mcp_server_url: String,
    pub factory_mcp_server_api_key: String,
}

pub struct FactoryMcpRuntimeConfigView {
    pub factory_mcp_llm_provider_url: LlmProviderUrl,
    pub factory_mcp_llm_provider_api_key: Seq<char>,
    pub factory_mcp_llm_model_id: Seq<char>,
    pub factory_mcp_server_url: Seq<char>,
    pub factory_mcp_server_api_key: Seq<char>,
}

impl View for FactoryMcpRuntimeConfig {
    type V = FactoryMcpRuntimeConfigView;

    open spec fn view(&self) -> FactoryMcpRuntimeConfigView {
        FactoryMcpRuntimeConfigView {
            factory_mcp_llm_provider_url: self.factory_mcp_llm_provider_url,
            factory_mcp_llm_provider_api_key: self.factory_mcp_llm_provider_api_key@,
            factory_mcp_llm_model_id: self.factory_mcp_llm_model_id@,
            factory_mcp_server_url: self.factory_mcp_server_url@,
            factory_mcp_server_api_key: self.factory_mcp_server_api_key@,
        }
    }
}

/// The view of an optional tool runtime.
pub open spec fn opt_runtime(
    c: Option<FactoryMcpRuntimeConfig>,
) -> Option<FactoryMcpRuntimeConfigView> {
    match c {
        Some(r) => Some(r@),
        None => None,
    }
}

impl FactoryMcpRuntimeConfig {
    /// A builder with nothing set.
    pub fn builder() -> (builder: FactoryMcpRuntimeConfigBuilder)
        ensures
            builder@ == FactoryMcpRuntimeConfigBuilderView::empty(),
    {
        FactoryMcpRuntimeConfigBuilder::new()
    }
}

/// Collects the entries of a tool runtime configuration; all are required.
pub struct FactoryMcpRuntimeConfigBuilder {
    factory_mcp_llm_provider_url: Option<LlmProviderUrl>,
    factory_mcp_llm_provider_api_key: Option<String>,
    factory_mcp_llm_model_id: Option<String>,
    factory_mcp_server_url: Option<String>,
    factory_mcp_server_api_key: Option<String>,
}

pub struct FactoryMcpRuntimeConfigBuilderView {
    pub factory_mcp_llm_provider_url: Option<LlmProviderUrl>,
    pub factory_mcp_llm_provider_api_key: Option<Seq<char>>,
    pub factory_mcp_llm_model_id: Option<Seq<char>>,
    pub factory_mcp_server_url: Option<Seq<char>>,
    pub factory_mcp_server_api_key: Option<Seq<char>>,
}

impl FactoryMcpRuntimeConfigBuilderView {
    /// Nothing set.
    pub open spec fn empty() -> FactoryMcpRuntimeConfigBuilderView {
        FactoryMcpRuntimeConfigBuilderView {
            factory_mcp_llm_provider_url: None,
            factory_mcp_llm_provider_api_key: None,
            factory_mcp_llm_model_id: None,
            factory_mcp_server_url: None,
            factory_mcp_server_api_key: None,
        }
    }

    /// The message that names the first required entry that is not set,
    /// if any.
    pub open spec fn missing(self) -> Option<Seq<char>> {
        if self.factory_mcp_llm_provider_url is None {
            Some("factory_mcp_llm_provider_url is not set"@)
        } else if self.factory_mcp_llm_provider_api_key is None {
            Some("factory_mcp_llm_provider_api_key is not set"@)
        } else if self.factory_mcp_llm_model_id is None {
            Some("factory_mcp_llm_model_id is not set"@)
        } else if self.factory_mcp_server_url is None {
            Some("factory_mcp_server_url is not set"@)
        } else if self.factory_mcp_server_api_key is None {
            Some("factory_mcp_server_api_key is not set"@)
        } else {
            None
        }
    }

    /// The configuration that the entries make; meaningful where none
    /// is missing.
    pub open spec fn built(self) -> FactoryMcpRuntimeConfigView {
        FactoryMcpRuntimeConfigView {
            factory_mcp_llm_provider_url: self.factory_mcp_llm_provider_url->0,
            factory_mcp_llm_provider_api_key: self.factory_mcp_llm_provider_api_key->0,
            factory_mcp_llm_model_id: self.factory_mcp_llm_model_id->0,
            factory_mcp_server_url: self.factory_mcp_server_url->0,
            factory_mcp_server_api_key: self.factory_mcp_server_api_key->0,
        }
    }
}

impl View for FactoryMcpRuntimeConfigBuilder {
    type V = FactoryMcpRuntimeConfigBuilderView;

    closed spec fn view(&self) -> FactoryMcpRuntimeConfigBuilderView {
        FactoryMcpRuntimeConfigBuilderView {
            factory_mcp_llm_provider_url: self.factory_mcp_llm_provider_url,
            factory_mcp_llm_provider_api_key: opt_text(self.factory_mcp_llm_provider_api_key),
            factory_mcp_llm_model_id: opt_text(self.factory_mcp_llm_model_id),
            factory_mcp_server_url: opt_text(self.factory_mcp_server_url),
            factory_mcp_server_api_key: opt_text(self.factory_mcp_server_api_key),
        }
    }
}

impl FactoryMcpRuntimeConfigBuilder {
    /// A builder with nothing set.
    pub fn new() -> (builder: FactoryMcpRuntimeConfigBuilder)
        ensures
            builder@ == FactoryMcpRuntimeConfigBuilderView::empty(),
    {
        FactoryMcpRuntimeConfigBuilder {
            factory_mcp_llm_provider_url: None,
            factory_mcp_llm_provider_api_key: None,
            factory_mcp_llm_model_id: None,
            factory_mcp_server_url: None,
            factory_mcp_server_api_key: None,
        }
    }

    /// Sets `factory_mcp_llm_provider_url` and leaves every other entry as it is.
    pub fn with_factory_mcp_llm_provider_url(
        self,
        factory_mcp_llm_provider_url: LlmProviderUrl,
    ) -> (builder: FactoryMcpRuntimeConfigBuilder)
        ensures
            builder@ == (FactoryMcpRuntimeConfigBuilderView {
                factory_mcp_llm_provider_url: Some(factory_mcp_llm_provider_url),
                ..self@
            }),
    {
        let mut builder = self;
        builder.factory_mcp_llm_provider_url = Some(factory_mcp_llm_provider_url);
        builder
    }

    /// Sets `factory_mcp_llm_provider_api_key` and leaves every other entry as it is.
    pub fn with_factory_mcp_llm_provider_api_key(
        self,
        factory_mcp_llm_provider_api_key: String,
    ) -> (builder: FactoryMcpRuntimeConfigBuilder)
        ensures
            builder@ == (FactoryMcpRuntimeConfigBuilderView {
                factory_mcp_llm_provider_api_key: Some(factory_mcp_llm_provider_api_key@),
                ..self@
            }),
    {
        let mut builder = self;
        builder.factory_mcp_llm_provider_api_key = Some(factory_mcp_llm_provider_api_key);
        builder
    }

    /// Sets `factory_mcp_llm_model_id` and leaves every other entry as it is.
    pub fn with_factory_mcp_llm_model_id(
        self,
        factory_mcp_llm_model_id: String,
    ) -> (builder: FactoryMcpRuntimeConfigBuilder)
        ensures
            builder@ == (FactoryMcpRuntimeConfigBuilderView {
                factory_mcp_llm_model_id: Some(factory_mcp_llm_model_id@),
                ..self@
            }),
    {
        let mut builder = self;
        builder.factory_mcp_llm_model_id = Some(factory_mcp_llm_model_id);
        builder
    }

    /// Sets `factory_mcp_server_url` and leaves every other entry as it is.
    pub fn with_factory_mcp_server_url(
        self,
        factory_mcp_server_url: String,
    ) -> (builder: FactoryMcpRuntimeConfigBuilder)
        ensures
            builder@ == (FactoryMcpRuntimeConfigBuilderView {
                factory_mcp_server_url: Some(factory_mcp_server_url@),
                ..self@
            }),
    {
        let mut builder = self;
        builder.factory_mcp_server_url = Some(factory_mcp_server_url);
        builder
    }

    /// Sets `factory_mcp_server_api_key` and leaves every other entry as it is.
    pub fn with_factory_mcp_server_api_key(
        self,
        factory_mcp_server_api_key: String,
    ) -> (builder: FactoryMcpRuntimeConfigBuilder)
        ensures
            builder@ == (FactoryMcpRuntimeConfigBuilderView {
                factory_mcp_server_api_key: Some(factory_mcp_server_api_key@),
                ..self@
            }),
    {
        let mut builder = self;
        builder.factory_mcp_server_api_key = Some(factory_mcp_server_api_key);
        builder
    }

    /// Builds the configuration, or names the first required entry that
    /// is not set.
    pub fn build(self) -> (built: Result<FactoryMcpRuntimeConfig, String>)
        ensures
            built is Err <==> self@.missing() is Some,
            built is Err ==> built->Err_0@ == self@.missing()->0,
            built is Ok ==> built->Ok_0@ == self@.built(),
    {
        let factory_mcp_llm_provider_url = match self.factory_mcp_llm_provider_url {
            Some(value) => value,
            None => {
                return Err("factory_mcp_llm_provider_url is not set".to_string());
            },
        };
        let factory_mcp_llm_provider_api_key = match self.factory_mcp_llm_provider_api_key {
            Some(value) => value,
            None => {
                return Err("factory_mcp_llm_provider_api_key is not set".to_string());
            },
        };
        let factory_mcp_llm_model_id = match self.factory_mcp_llm_model_id {
            Some(value) => value,
            None => {
                return Err("factory_mcp_llm_model_id is not set".to_string());
            },
        };
        let factory_mcp_server_url = match self.factory_mcp_server_url {
            Some(value) => value,
            None => {
                return Err("factory_mcp_server_url is not set".to_string());
            },
        };
        let factory_mcp_server_api_key = match self.factory_mcp_server_api_key {
            Some(value) => value,
            None => {
                return Err("factory_mcp_server_api_key is not set".to_string());
            },
        };
        Ok(
            FactoryMcpRuntimeConfig {
                factory_mcp_llm_provider_url,
                factory_mcp_llm_provider_api_key,
                factory_mcp_llm_model_id,
                factory_mcp_server_url,
                factory_mcp_server_api_key,
            },
        )
    }
}

/// Agent-level configuration.
#[derive(Debug, Clone)]
pub struct FactoryAgentConfig {
    pub factory_agent_url: String,
    pub factory_agent_type: AgentType,
    pub factory_agent_domains: Option<AgentDomain>,
    pub factory_agent_id: String,
    pub factory_agent_name: String,
    pub factory_agent_description: String,
    pub factory_agent_llm_provider_url: LlmProviderUrl,
    pub factory_agent_llm_provider_api_key: String,
    pub factory_agent_llm_model_id: String,
    pub factory_agent_mcp_runtime_config: Option<FactoryMcpRuntimeConfig>,
    pub factory_agent_is_evaluated: bool,
    pub factory_agent_executor_url: Option<String>,
}

pub struct FactoryAgentConfigView {
    pub factory_agent_url: Seq<char>,
    pub factory_agent_type: AgentType,
    pub factory_agent_domains: Option<AgentDomain>,
    pub factory_agent_id: Seq<char>,
    pub factory_agent_name: Seq<char>,
    pub factory_agent_description: Seq<char>,
    pub factory_agent_llm_provider_url: LlmProviderUrl,
    pub factory_agent_llm_provider_api_key: Seq<char>,
    pub factory_agent_llm_model_id: Seq<char>,
    pub factory_agent_mcp_runtime_config: Option<FactoryMcpRuntimeConfigView>,
    pub factory_agent_is_evaluated: bool,
    pub factory_agent_executor_url: Option<Seq<char>>,
}

impl View for FactoryAgentConfig {
    type V = FactoryAgentConfigView;

    open spec fn view(&self) -> FactoryAgentConfigView {
        FactoryAgentConfigView {
            factory_agent_url: self.factory_agent_url@,
            factory_agent_type: self.factory_agent_type,
            factory_agent_domains: self.factory_agent_domains,
            factory_agent_id: self.factory_agent_id@,
            factory_agent_name: self.factory_agent_name@,
            factory_agent_description: self.factory_agent_description@,
            factory_agent_llm_provider_url: self.factory_agent_llm_provider_url,
            factory_agent_llm_provider_api_key: self.factory_agent_llm_provider_api_key@,
            factory_agent_llm_model_id: self.factory_agent_llm_model_id@,
            factory_agent_mcp_runtime_config: opt_runtime(self.factory_agent_mcp_runtime_config),
            factory_agent_is_evaluated: self.factory_agent_is_evaluated,
            factory_agent_executor_url: opt_text(self.factory_agent_executor_url),
        }
    }
}

impl FactoryAgentConfig {
    /// A builder with nothing set.
    pub fn builder() -> (builder: FactoryAgentConfigBuilder)
        ensures
            builder@ == FactoryAgentConfigBuilderView::empty(),
    {
        FactoryAgentConfigBuilder::new()
    }
}

/// Collects the entries of an agent configuration. The domain, the tool runtime
/// and the executor address are optional; an agent is not evaluated unless it
/// is said to be.
pub struct FactoryAgentConfigBuilder {
    factory_agent_url: Option<String>,
    factory_agent_type: Option<AgentType>,
    factory_agent_domains: Option<AgentDomain>,
    factory_agent_name: Option<String>,
    factory_agent_id: Option<String>,
    factory_agent_description: Option<String>,
    factory_agent_llm_provider_url: Option<LlmProviderUrl>,
    factory_agent_llm_provider_api_key: Option<String>,
    factory_agent_llm_model_id: Option<String>,
    factory_agent_mcp_runtime_config: Option<FactoryMcpRuntimeConfig>,
    factory_agent_is_evaluated: bool,
    factory_agent_executor_url: Option<String>,
}

pub struct FactoryAgentConfigBuilderView {
    pub factory_agent_url: Option<Seq<char>>,
    pub factory_agent_type: Option<AgentType>,
    pub factory_agent_domains: Option<AgentDomain>,
    pub factory_agent_name: Option<Seq<char>>,
    pub factory_agent_id: Option<Seq<char>>,
    pub factory_agent_description: Option<Seq<char>>,
    pub factory_agent_llm_provider_url: Option<LlmProviderUrl>,
    pub factory_agent_llm_provider_api_key: Option<Seq<char>>,
    pub factory_agent_llm_model_id: Option<Seq<char>>,
    pub factory_agent_mcp_runtime_config: Option<FactoryMcpRuntimeConfigView>,
    pub factory_agent_is_evaluated: bool,
    pub factory_agent_executor_url: Option<Seq<char>>,
}

impl FactoryAgentConfigBuilderView {
    /// Nothing set.
    pub open spec fn empty() -> FactoryAgentConfigBuilderView {
        FactoryAgentConfigBuilderView {
            factory_agent_url: None,
            factory_agent_type: None,
            factory_agent_domains: None,
            factory_agent_name: None,
            factory_agent_id: None,
            factory_agent_description: None,
            factory_agent_llm_provider_url: None,
            factory_agent_llm_provider_api_key: None,
            factory_agent_llm_model_id: None,
            factory_agent_mcp_runtime_config: None,
            factory_agent_is_evaluated: false,
            factory_agent_executor_url: None,
        }
    }

    /// The message that names the first required entry that is not set,
    /// if any.
    pub open spec fn missing(self) -> Option<Seq<char>> {
        if self.factory_agent_url is None {
            Some("factory_agent_url is not set"@)
        } else if self.factory_agent_type is None {
            Some("factory_agent_type is not set"@)
        } else if self.factory_agent_name is None {
            Some("factory_agent_name is not set"@)
        } else if self.factory_agent_id is None {
            Some("factory_agent_id is not set"@)
        } else if self.factory_agent_description is None {
            Some("factory_agent_description is not set"@)
        } else if self.factory_agent_llm_provider_url is None {
            Some("factory_agent_llm_provider_url is not set"@)
        } else if self.factory_agent_llm_provider_api_key is None {
            Some("factory_agent_llm_provider_api_key is not set"@)
        } else if self.factory_agent_llm_model_id is None {
            Some("factory_agent_llm_model_id is not set"@)
        } else {
            None
        }
    }

    /// The configuration that the entries make; meaningful where none
    /// is missing.
    pub open spec fn built(self) -> FactoryAgentConfigView {
        FactoryAgentConfigView {
            factory_agent_url: self.factory_agent_url->0,
            factory_agent_type: self.factory_agent_type->0,
            factory_agent_domains: self.factory_agent_domains,
            factory_agent_id: self.factory_agent_id->0,
            factory_agent_name: self.factory_agent_name->0,
            factory_agent_description: self.factory_agent_description->0,
            factory_agent_llm_provider_url: self.factory_agent_llm_provider_url->0,
            factory_agent_llm_provider_api_key: self.factory_agent_llm_provider_api_key->0,
            factory_agent_llm_model_id: self.factory_agent_llm_model_id->0,
            factory_agent_mcp_runtime_config: self.factory_agent_mcp_runtime_config,
            factory_agent_is_evaluated: self.factory_agent_is_evaluated,
            factory_agent_executor_url: self.factory_agent_executor_url,
        }
    }
}

impl View for FactoryAgentConfigBuilder {
    type V = FactoryAgentConfigBuilderView;

    closed spec fn view(&self) -> FactoryAgentConfigBuilderView {
        FactoryAgentConfigBuilderView {
            factory_agent_url: opt_text(self.factory_agent_url),
            factory_agent_type: self.factory_agent_type,
            factory_agent_domains: self.factory_agent_domains,
            factory_agent_name: opt_text(self.factory_agent_name),
            factory_agent_id: opt_text(self.factory_agent_id),
            factory_agent_description: opt_text(self.factory_agent_description),
            factory_agent_llm_provider_url: self.factory_agent_llm_provider_url,
            factory_agent_llm_provider_api_key: opt_text(self.factory_agent_llm_provider_api_key),
            factory_agent_llm_model_id: opt_text(self.factory_agent_llm_model_id),
            factory_agent_mcp_runtime_config: opt_runtime(self.factory_agent_mcp_runtime_config),
            factory_agent_is_evaluated: self.factory_agent_is_evaluated,
            factory_agent_executor_url: opt_text(self.factory_agent_executor_url),
        }
    }
}

impl FactoryAgentConfigBuilder {
    /// A builder with nothing set.
    pub fn new() -> (builder: FactoryAgentConfigBuilder)
        ensures
            builder@ == FactoryAgentConfigBuilderView::empty(),
    {
        FactoryAgentConfigBuilder {
            factory_agent_url: None,
            factory_agent_type: None,
            factory_agent_domains: None,
            factory_agent_name: None,
            factory_agent_id: None,
            factory_agent_description: None,
            factory_agent_llm_provider_url: None,
            factory_agent_llm_provider_api_key: None,
            factory_agent_llm_model_id: None,
            factory_agent_mcp_runtime_config: None,
            factory_agent_is_evaluated: false,
            factory_agent_executor_url: None,
        }
    }

    /// Sets `factory_agent_url` and leaves every other entry as it is.
    pub fn with_factory_agent_url(
        self,
        factory_agent_url: String,
    ) -> (builder: FactoryAgentConfigBuilder)
        ensures
            builder@ == (FactoryAgentConfigBuilderView {
                factory_agent_url: Some(factory_agent_url@),
                ..self@
            }),
    {
        let mut builder = self;
        builder.factory_agent_url = Some(factory_agent_url);
        builder
    }

    /// Sets `factory_agent_type` and leaves every other entry as it is.
    pub fn with_factory_agent_type(
        self,
        factory_agent_type: AgentType,
    ) -> (builder: FactoryAgentConfigBuilder)
        ensures
            builder@ == (FactoryAgentConfigBuilderView {
                factory_agent_type: Some(factory_agent_type),
                ..self@
            }),
    {
        let mut builder = self;
        builder.factory_agent_type = Some(factory_agent_type);
        builder
    }

    /// Sets `factory_agent_domains` and leaves every other entry as it is.
    pub fn with_factory_agent_domains(
        self,
        factory_agent_domains: AgentDomain,
    ) -> (builder: FactoryAgentConfigBuilder)
        ensures
            builder@ == (FactoryAgentConfigBuilderView {
                factory_agent_domains: Some(factory_agent_domains),
                ..self@
            }),
    {
        let mut builder = self;
        builder.factory_agent_domains = Some(factory_agent_domains);
        builder
    }

    /// Sets `factory_agent_name` and leaves every other entry as it is.
    pub fn with_factory_agent_name(
        self,
        factory_agent_name: String,
    ) -> (builder: FactoryAgentConfigBuilder)
        ensures
            builder@ == (FactoryAgentConfigBuilderView {
                factory_agent_name: Some(factory_agent_name@),
                ..self@
            }),
    {
        let mut builder = self;
        builder.factory_agent_name = Some(factory_agent_name);
        builder
    }

    /// Sets `factory_agent_id` and leaves every other entry as it is.
    pub fn with_factory_agent_id(
        self,
        factory_agent_id: String,
    ) -> (builder: FactoryAgentConfigBuilder)
        ensures
            builder@ == (FactoryAgentConfigBuilderView {
                factory_agent_id: Some(factory_agent_id@),
                ..self@
            }),
    {
        let mut builder = self;
        builder.factory_agent_id = Some(factory_agent_id);
        builder
    }

    /// Sets `factory_agent_description` and leaves every other entry as it is.
    pub fn with_factory_agent_description(
        self,
        factory_agent_description: String,
    ) -> (builder: FactoryAgentConfigBuilder)
        ensures
            builder@ == (FactoryAgentConfigBuilderView {
                factory_agent_description: Some(factory_agent_description@),
                ..self@
            }),
    {
        let mut builder = self;
        builder.factory_agent_description = Some(factory_agent_description);
        builder
    }

    /// Sets `factory_agent_llm_provider_url` and leaves every other entry as it is.
    pub fn with_factory_agent_llm_provider_url(
        self,
        factory_agent_llm_provider_url: LlmProviderUrl,
    ) -> (builder: FactoryAgentConfigBuilder)
        ensures
            builder@ == (FactoryAgentConfigBuilderView {
                factory_agent_llm_provider_url: Some(factory_agent_llm_provider_url),
                ..self@
            }),
    {
        let mut builder = self;
        builder.factory_agent_llm_provider_url = Some(factory_agent_llm_provider_url);
        builder
    }

    /// Sets `factory_agent_llm_provider_api_key` and leaves every other entry as it is.
    pub fn with_factory_agent_llm_provider_api_key(
        self,
        factory_agent_llm_provider_api_key: String,
    ) -> (builder: FactoryAgentConfigBuilder)
        ensures
            builder@ == (FactoryAgentConfigBuilderView {
                factory_agent_llm_provider_api_key: Some(factory_agent_llm_provider_api_key@),
                ..self@
            }),
    {
        let mut builder = self;
        builder.factory_agent_llm_provider_api_key = Some(factory_agent_llm_provider_api_key);
        builder
    }

    /// Sets `factory_agent_llm_model_id` and leaves every other entry as it is.
    pub fn with_factory_agent_llm_model_id(
        self,
        factory_agent_llm_model_id: String,
    ) -> (builder: FactoryAgentConfigBuilder)
        ensures
            builder@ == (FactoryAgentConfigBuilderView {
                factory_agent_llm_model_id: Some(factory_agent_llm_model_id@),
                ..self@
            }),
    {
        let mut builder = self;
        builder.factory_agent_llm_model_id = Some(factory_agent_llm_model_id);
        builder
    }

    /// Sets `factory_agent_mcp_runtime_config` and leaves every other entry as it is.
    pub fn with_factory_agent_mcp_runtime_config(
        self,
        factory_agent_mcp_runtime_config: FactoryMcpRuntimeConfig,
    ) -> (builder: FactoryAgentConfigBuilder)
        ensures
            builder@ == (FactoryAgentConfigBuilderView {
                factory_agent_mcp_runtime_config: Some(factory_agent_mcp_runtime_config@),
                ..self@
            }),
    {
        let mut builder = self;
        builder.factory_agent_mcp_runtime_config = Some(factory_agent_mcp_runtime_config);
        builder
    }

    /// Sets `factory_agent_is_evaluated` and leaves every other entry as it is.
    pub fn with_factory_agent_is_evaluated(
        self,
        factory_agent_is_evaluated: bool,
    ) -> (builder: FactoryAgentConfigBuilder)
        ensures
            builder@ == (FactoryAgentConfigBuilderView {
                factory_agent_is_evaluated: factory_agent_is_evaluated,
                ..self@
            }),
    {
        let mut builder = self;
        builder.factory_agent_is_evaluated = factory_agent_is_evaluated;
        builder
    }

    /// Sets `factory_agent_executor_url` and leaves every other entry as it is.
    pub fn with_factory_agent_executor_url(
        self,
        factory_agent_executor_url: String,
    ) -> (builder: FactoryAgentConfigBuilder)
        ensures
            builder@ == (FactoryAgentConfigBuilderView {
                factory_agent_executor_url: Some(factory_agent_executor_url@),
                ..self@
            }),
    {
        let mut builder = self;
        builder.factory_agent_executor_url = Some(factory_agent_executor_url);
        builder
    }

    /// Builds the configuration, or names the first required entry that
    /// is not set.
    pub fn build(self) -> (built: Result<FactoryAgentConfig, String>)
        ensures
            built is Err <==> self@.missing() is Some,
            built is Err ==> built->Err_0@ == self@.missing()->0,
            built is Ok ==> built->Ok_0@ == self@.built(),
    {
        let factory_agent_url = match self.factory_agent_url {
            Some(value) => value,
            None => {
                return Err("factory_agent_url is not set".to_string());
            },
        };
        let factory_agent_type = match self.factory_agent_type {
            Some(value) => value,
            None => {
                return Err("factory_agent_type is not set".to_string());
            },
        };
        let factory_agent_name = match self.factory_agent_name {
            Some(value) => value,
            None => {
                return Err("factory_agent_name is not set".to_string());
            },
        };
        let factory_agent_id = match self.factory_agent_id {
            Some(value) => value,
            None => {
                return Err("factory_agent_id is not set".to_string());
            },
        };
        let factory_agent_description = match self.factory_agent_description {
            Some(value) => value,
            None => {
                return Err("factory_agent_description is not set".to_string());
            },
        };
        let factory_agent_llm_provider_url = match self.factory_agent_llm_provider_url {
            Some(value) => value,
            None => {
                return Err("factory_agent_llm_provider_url is not set".to_string());
            },
        };
        let factory_agent_llm_provider_api_key = match self.factory_agent_llm_provider_api_key {
            Some(value) => value,
            None => {
                return Err("factory_agent_llm_provider_api_key is not set".to_string());
            },
        };
        let factory_agent_llm_model_id = match self.factory_agent_llm_model_id {
            Some(value) => value,
            None => {
                return Err("factory_agent_llm_model_id is not set".to_string());
            },
        };
        Ok(
            FactoryAgentConfig {
                factory_agent_url,
                factory_agent_type,
                factory_agent_domains: self.factory_agent_domains,
                factory_agent_id,
                factory_agent_name,
                factory_agent_description,
                factory_agent_llm_provider_url,
                factory_agent_llm_provider_api_key,
                factory_agent_llm_model_id,
                factory_agent_mcp_runtime_config: self.factory_agent_mcp_runtime_config,
                factory_agent_is_evaluated: self.factory_agent_is_evaluated,
                factory_agent_executor_url: self.factory_agent_executor_url,
            },
        )
    }
}

} // verus!
