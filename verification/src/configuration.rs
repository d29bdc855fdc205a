//! The configuration of one agent and of its tool runtime.

use vstd::prelude::*;
use crate::text::{clone_opt, clone_texts, opt_text, texts};

verus! {

/// The configuration of the tool runtime of an agent.
#[derive(Debug, Clone)]
pub struct McpRuntimeConfig {
    pub agent_mcp_role_tool: String,
    pub agent_mcp_role_assistant: String,
    pub agent_mcp_tool_choice_auto: String,
    pub agent_mcp_finish_reason_tool_calls: String,
    pub agent_mcp_finish_reason_stop: String,
    pub agent_mcp_max_loops: u32,
    pub agent_mcp_server_url: Option<String>,
    /// The key that opens the tool server.
    pub agent_mcp_server_api_key: Option<String>,
    pub agent_mcp_model_id: String,
    /// The address of the model that drives the tool runtime.
    pub agent_mcp_llm_url: String,
    /// The name of the environment variable that holds the key of that model.
    pub agent_mcp_llm_api_key_env_var: Option<String>,
    pub agent_mcp_system_prompt: String,
    pub agent_mcp_endpoint_url: Option<String>,
}

/// The tool runtime of an agent: its configuration and the key of its model.
#[derive(Debug, Clone)]
pub struct McpRuntimeDetails {
    pub config: McpRuntimeConfig,
    pub api_key: String,
}

/// A reference to another agent: its id and where it is reached.
#[derive(Debug, Clone)]
pub struct AgentReference {
    pub id: String,
    pub url: String,
    pub is_default: Option<bool>,
}

pub struct AgentReferenceView {
    pub id: Seq<char>,
    pub url: Seq<char>,
    pub is_default: Option<bool>,
}

impl DeepView for AgentReference {
    type V = AgentReferenceView;

    open spec fn deep_view(&self) -> AgentReferenceView {
        AgentReferenceView { id: self.id@, url: self.url@, is_default: self.is_default }
    }
}

impl View for AgentReference {
    type V = AgentReferenceView;

    open spec fn view(&self) -> AgentReferenceView {
        self.deep_view()
    }
}

impl AgentReference {
    /// A reference to the agent `id` at `url`, not marked as a default. Never
    /// fails.
    pub fn new(id: String, url: String) -> (reference: Result<AgentReference, String>)
        ensures
            reference is Ok,
            reference->Ok_0 == (AgentReference { id: id, url: url, is_default: None }),
    {
        Ok(AgentReference { id: id, url: url, is_default: None })
    }

    /// A copy of this reference. Never fails.
    pub fn get_agent_reference(&self) -> (reference: Result<AgentReference, String>)
        ensures
            reference is Ok,
            reference->Ok_0@ == self@,
    {
        Ok(self.copy())
    }

    /// A copy of this reference.
    pub fn copy(&self) -> (reference: AgentReference)
        ensures
            reference@ == self@,
    {
        AgentReference { id: self.id.clone(), url: self.url.clone(), is_default: self.is_default }
    }
}

/// A copy of an optional list of references.
pub fn clone_references(list: &Option<Vec<AgentReference>>) -> (copy: Option<Vec<AgentReference>>)
    ensures
        copy.deep_view() == list.deep_view(),
{
    match list {
        None => None,
        Some(v) => {
            let mut copy: Vec<AgentReference> = Vec::new();
            let mut i: usize = 0;
            while i < v.len()
                invariant
                    i <= v.len(),
                    copy.len() == i,
                    forall|j: int| 0 <= j < i ==> copy@[j].deep_view() == v@[j].deep_view(),
                decreases v.len() - i,
            {
                copy.push(v[i].copy());
                i += 1;
            }
            assert(copy.deep_view() =~= v.deep_view());
            Some(copy)
        },
    }
}

/// The configuration of one agent.
#[derive(Debug, Clone)]
pub struct AgentConfig {
    pub agent_id: String,
    pub agent_name: String,
    pub agent_http_endpoint: String,
    pub agent_ws_endpoint: String,
    pub agent_discoverable: Option<bool>,
    pub agent_executor_url: Option<String>,
    pub agent_system_prompt: Option<String>,
    pub agent_version: String,
    pub agent_description: String,
    pub agent_skill_id: String,
    pub agent_skill_name: String,
    pub agent_skill_description: String,
    pub agent_model_id: String,
    pub agent_llm_url: String,
    pub agent_mcp_config_path: Option<String>,
    pub agent_doc_url: Option<String>,
    pub agent_tags: Vec<String>,
    pub agent_examples: Vec<String>,
    pub agent_agents_references: Option<Vec<AgentReference>>,
}

impl AgentConfig {
    /// A builder with nothing set.
    pub fn builder() -> (builder: AgentConfigBuilder)
        ensures
            builder == AgentConfigBuilder::empty(),
    {
        AgentConfigBuilder::new()
    }

    /// A copy of `agent_id`.
    pub fn agent_id(&self) -> (value: String)
        ensures
            value@ == self.agent_id@,
    {
        self.agent_id.clone()
    }

    /// A copy of `agent_name`.
    pub fn agent_name(&self) -> (value: String)
        ensures
            value@ == self.agent_name@,
    {
        self.agent_name.clone()
    }

    /// A copy of `agent_http_endpoint`.
    pub fn agent_http_endpoint(&self) -> (value: String)
        ensures
            value@ == self.agent_http_endpoint@,
    {
        self.agent_http_endpoint.clone()
    }

    /// A copy of `agent_ws_endpoint`.
    pub fn agent_ws_endpoint(&self) -> (value: String)
        ensures
            value@ == self.agent_ws_endpoint@,
    {
        self.agent_ws_endpoint.clone()
    }

    /// Whether the agent registers itself for discovery: `false` unless it
    /// is set to `true`.
    pub fn agent_discoverable(&self) -> (value: Option<bool>)
        ensures
            value == Some(self.agent_discoverable == Some(true)),
    {
        match self.agent_discoverable {
            Some(set) => Some(set),
            None => Some(false),
        }
    }

    /// A copy of `agent_executor_url`.
    pub fn agent_executor_url(&self) -> (value: Option<String>)
        ensures
            opt_text(value) == opt_text(self.agent_executor_url),
    {
        clone_opt(&self.agent_executor_url)
    }

    /// A copy of `agent_system_prompt`.
    pub fn agent_system_prompt(&self) -> (value: Option<String>)
        ensures
            opt_text(value) == opt_text(self.agent_system_prompt),
    {
        clone_opt(&self.agent_system_prompt)
    }

    /// A copy of `agent_version`.
    pub fn agent_version(&self) -> (value: String)
        ensures
            value@ == self.agent_version@,
    {
        self.agent_version.clone()
    }

    /// A copy of `agent_description`.
    pub fn agent_description(&self) -> (value: String)
        ensures
            value@ == self.agent_description@,
    {
        self.agent_description.clone()
    }

    /// A copy of `agent_skill_id`.
    pub fn agent_skill_id(&self) -> (value: String)
        ensures
            value@ == self.agent_skill_id@,
    {
        self.agent_skill_id.clone()
    }

    /// A copy of `agent_skill_name`.
    pub fn agent_skill_name(&self) -> (value: String)
        ensures
            value@ == self.agent_skill_name@,
    {
        self.agent_skill_name.clone()
    }

    /// A copy of `agent_skill_description`.
    pub fn agent_skill_description(&self) -> (value: String)
        ensures
            value@ == self.agent_skill_description@,
    {
        self.agent_skill_description.clone()
    }

    /// A copy of `agent_model_id`.
    pub fn agent_model_id(&self) -> (value: String)
        ensures
            value@ == self.agent_model_id@,
    {
        self.agent_model_id.clone()
    }

    /// A copy of `agent_llm_url`.
    pub fn agent_llm_url(&self) -> (value: String)
        ensures
            value@ == self.agent_llm_url@,
    {
        self.agent_llm_url.clone()
    }

    /// A copy of `agent_mcp_config_path`.
    pub fn agent_mcp_config_path(&self) -> (value: Option<String>)
        ensures
            opt_text(value) == opt_text(self.agent_mcp_config_path),
    {
        clone_opt(&self.agent_mcp_config_path)
    }

    /// A copy of `agent_doc_url`.
    pub fn agent_doc_url(&self) -> (value: Option<String>)
        ensures
            opt_text(value) == opt_text(self.agent_doc_url),
    {
        clone_opt(&self.agent_doc_url)
    }

    /// A copy of `agent_tags`.
    pub fn agent_tags(&self) -> (value: Vec<String>)
        ensures
            texts(value@) == texts(self.agent_tags@),
    {
        clone_texts(&self.agent_tags)
    }

    /// A copy of `agent_examples`.
    pub fn agent_examples(&self) -> (value: Vec<String>)
        ensures
            texts(value@) == texts(self.agent_examples@),
    {
        clone_texts(&self.agent_examples)
    }

    /// A copy of `agent_agents_references`.
    pub fn agent_agents_references(&self) -> (value: Option<Vec<AgentReference>>)
        ensures
            value.deep_view() == self.agent_agents_references.deep_view(),
    {
        clone_references(&self.agent_agents_references)
    }

}

/// Collects the entries of an agent configuration.
pub struct AgentConfigBuilder {
    pub agent_id: Option<String>,
    pub agent_name: Option<String>,
    pub agent_http_endpoint: Option<String>,
    pub agent_ws_endpoint: Option<String>,
    pub agent_discoverable: Option<bool>,
    pub agent_executor_url: Option<String>,
    pub agent_system_prompt: Option<String>,
    pub agent_version: Option<String>,
    pub agent_description: Option<String>,
    pub agent_skill_id: Option<String>,
    pub agent_skill_name: Option<String>,
    pub agent_skill_description: Option<String>,
    pub agent_model_id: Option<String>,
    pub agent_llm_url: Option<String>,
    pub agent_mcp_config_path: Option<String>,
    pub agent_doc_url: Option<String>,
    pub agent_tags: Option<Vec<String>>,
    pub agent_examples: Option<Vec<String>>,
    pub agent_agents_references: Option<Vec<AgentReference>>,
}

impl AgentConfigBuilder {
    /// The builder with nothing set.
    pub open spec fn empty() -> AgentConfigBuilder {
        AgentConfigBuilder {
            agent_id: None,
            agent_name: None,
            agent_http_endpoint: None,
            agent_ws_endpoint: None,
            agent_discoverable: None,
            agent_executor_url: None,
            agent_system_prompt: None,
            agent_version: None,
            agent_description: None,
            agent_skill_id: None,
            agent_skill_name: None,
            agent_skill_description: None,
            agent_model_id: None,
            agent_llm_url: None,
            agent_mcp_config_path: None,
            agent_doc_url: None,
            agent_tags: None,
            agent_examples: None,
            agent_agents_references: None,
        }
    }

    /// The message that names the first required entry that is not set, if
    /// any.
    pub open spec fn missing(self) -> Option<Seq<char>> {
        if self.agent_id is None {
            Some("agent_id is required"@)
        } else if self.agent_name is None {
            Some("agent_name is required"@)
        } else if self.agent_http_endpoint is None {
            Some("agent_http_endpoint is required"@)
        } else if self.agent_ws_endpoint is None {
            Some("agent_ws_endpoint is required"@)
        } else if self.agent_version is None {
            Some("agent_version is required"@)
        } else if self.agent_description is None {
            Some("agent_description is required"@)
        } else if self.agent_skill_id is None {
            Some("agent_skill_id is required"@)
        } else if self.agent_skill_name is None {
            Some("agent_skill_name is required"@)
        } else if self.agent_skill_description is None {
            Some("agent_skill_description is required"@)
        } else if self.agent_model_id is None {
            Some("agent_model_id is required"@)
        } else if self.agent_llm_url is None {
            Some("agent_llm_url is required"@)
        } else {
            None
        }
    }

    /// `config` holds what this builder holds: every entry that is set, as
    /// it is, and an empty list for a list that is not set.
    pub open spec fn builds(self, config: AgentConfig) -> bool {
        &&& config.agent_id == self.agent_id->0
        &&& config.agent_name == self.agent_name->0
        &&& config.agent_http_endpoint == self.agent_http_endpoint->0
        &&& config.agent_ws_endpoint == self.agent_ws_endpoint->0
        &&& config.agent_discoverable == self.agent_discoverable
        &&& config.agent_executor_url == self.agent_executor_url
        &&& config.agent_system_prompt == self.agent_system_prompt
        &&& config.agent_version == self.agent_version->0
        &&& config.agent_description == self.agent_description->0
        &&& config.agent_skill_id == self.agent_skill_id->0
        &&& config.agent_skill_name == self.agent_skill_name->0
        &&& config.agent_skill_description == self.agent_skill_description->0
        &&& config.agent_model_id == self.agent_model_id->0
        &&& config.agent_llm_url == self.agent_llm_url->0
        &&& config.agent_mcp_config_path == self.agent_mcp_config_path
        &&& config.agent_doc_url == self.agent_doc_url
        &&& self.agent_tags is Some ==> config.agent_tags == self.agent_tags->0
        &&& self.agent_tags is None ==> config.agent_tags@.len() == 0
        &&& self.agent_examples is Some ==> config.agent_examples == self.agent_examples->0
        &&& self.agent_examples is None ==> config.agent_examples@.len() == 0
        &&& config.agent_agents_references == self.agent_agents_references
    }

    /// A builder with nothing set.
    pub fn new() -> (builder: AgentConfigBuilder)
        ensures
            builder == AgentConfigBuilder::empty(),
    {
        AgentConfigBuilder {
            agent_id: None,
            agent_name: None,
            agent_http_endpoint: None,
            agent_ws_endpoint: None,
            agent_discoverable: None,
            agent_executor_url: None,
            agent_system_prompt: None,
            agent_version: None,
            agent_description: None,
            agent_skill_id: None,
            agent_skill_name: None,
            agent_skill_description: None,
            agent_model_id: None,
            agent_llm_url: None,
            agent_mcp_config_path: None,
            agent_doc_url: None,
            agent_tags: None,
            agent_examples: None,
            agent_agents_references: None,
        }
    }

    /// Sets `agent_id` and leaves every other entry as it is.
    pub fn agent_id(self, agent_id: String) -> (builder: AgentConfigBuilder)
        ensures
            builder == (AgentConfigBuilder { agent_id: Some(agent_id), ..self }),
    {
        let mut builder = self;
        builder.agent_id = Some(agent_id);
        builder
    }

    /// Sets `agent_name` and leaves every other entry as it is.
    pub fn agent_name(self, agent_name: String) -> (builder: AgentConfigBuilder)
        ensures
            builder == (AgentConfigBuilder { agent_name: Some(agent_name), ..self }),
    {
        let mut builder = self;
        builder.agent_name = Some(agent_name);
        builder
    }

    /// Sets `agent_http_endpoint` and leaves every other entry as it is.
    pub fn agent_http_endpoint(self, agent_http_endpoint: String) -> (builder: AgentConfigBuilder)
        ensures
            builder == (AgentConfigBuilder {
                agent_http_endpoint: Some(agent_http_endpoint),
                ..self
            }),
    {
        let mut builder = self;
        builder.agent_http_endpoint = Some(agent_http_endpoint);
        builder
    }

    /// Sets `agent_ws_endpoint` and leaves every other entry as it is.
    pub fn agent_ws_endpoint(self, agent_ws_endpoint: String) -> (builder: AgentConfigBuilder)
        ensures
            builder == (AgentConfigBuilder { agent_ws_endpoint: Some(agent_ws_endpoint), ..self }),
    {
        let mut builder = self;
        builder.agent_ws_endpoint = Some(agent_ws_endpoint);
        builder
    }

    /// Sets `agent_discoverable` and leaves every other entry as it is.
    pub fn agent_discoverable(self, agent_discoverable: bool) -> (builder: AgentConfigBuilder)
        ensures
            builder == (AgentConfigBuilder {
                agent_discoverable: Some(agent_discoverable),
                ..self
            }),
    {
        let mut builder = self;
        builder.agent_discoverable = Some(agent_discoverable);
        builder
    }

    /// Sets `agent_executor_url` and leaves every other entry as it is.
    pub fn agent_executor_url(self, agent_executor_url: String) -> (builder: AgentConfigBuilder)
        ensures
            builder == (AgentConfigBuilder {
                agent_executor_url: Some(agent_executor_url),
                ..self
            }),
    {
        let mut builder = self;
        builder.agent_executor_url = Some(agent_executor_url);
        builder
    }

    /// Sets `agent_system_prompt` and leaves every other entry as it is.
    pub fn agent_system_prompt(self, agent_system_prompt: String) -> (builder: AgentConfigBuilder)
        ensures
            builder == (AgentConfigBuilder {
                agent_system_prompt: Some(agent_system_prompt),
                ..self
            }),
    {
        let mut builder = self;
        builder.agent_system_prompt = Some(agent_system_prompt);
        builder
    }

    /// Sets `agent_version` and leaves every other entry as it is.
    pub fn agent_version(self, agent_version: String) -> (builder: AgentConfigBuilder)
        ensures
            builder == (AgentConfigBuilder { agent_version: Some(agent_version), ..self }),
    {
        let mut builder = self;
        builder.agent_version = Some(agent_version);
        builder
    }

    /// Sets `agent_description` and leaves every other entry as it is.
    pub fn agent_description(self, agent_description: String) -> (builder: AgentConfigBuilder)
        ensures
            builder == (AgentConfigBuilder { agent_description: Some(agent_description), ..self }),
    {
        let mut builder = self;
        builder.agent_description = Some(agent_description);
        builder
    }

    /// Sets `agent_skill_id` and leaves every other entry as it is.
    pub fn agent_skill_id(self, agent_skill_id: String) -> (builder: AgentConfigBuilder)
        ensures
            builder == (AgentConfigBuilder { agent_skill_id: Some(agent_skill_id), ..self }),
    {
        let mut builder = self;
        builder.agent_skill_id = Some(agent_skill_id);
        builder
    }

    /// Sets `agent_skill_name` and leaves every other entry as it is.
    pub fn agent_skill_name(self, agent_skill_name: String) -> (builder: AgentConfigBuilder)
        ensures
            builder == (AgentConfigBuilder { agent_skill_name: Some(agent_skill_name), ..self }),
    {
        let mut builder = self;
        builder.agent_skill_name = Some(agent_skill_name);
        builder
    }

    /// Sets `agent_skill_description` and leaves every other entry as it is.
    pub fn agent_skill_description(
        self,
        agent_skill_description: String,
    ) -> (builder: AgentConfigBuilder)
        ensures
            builder == (AgentConfigBuilder {
                agent_skill_description: Some(agent_skill_description),
                ..self
            }),
    {
        let mut builder = self;
        builder.agent_skill_description = Some(agent_skill_description);
        builder
    }

    /// Sets `agent_model_id` and leaves every other entry as it is.
    pub fn agent_model_id(self, agent_model_id: String) -> (builder: AgentConfigBuilder)
        ensures
            builder == (AgentConfigBuilder { agent_model_id: Some(agent_model_id), ..self }),
    {
        let mut builder = self;
        builder.agent_model_id = Some(agent_model_id);
        builder
    }

    /// Sets `agent_llm_url` and leaves every other entry as it is.
    pub fn agent_llm_url(self, agent_llm_url: String) -> (builder: AgentConfigBuilder)
        ensures
            builder == (AgentConfigBuilder { agent_llm_url: Some(agent_llm_url), ..self }),
    {
        let mut builder = self;
        builder.agent_llm_url = Some(agent_llm_url);
        builder
    }

    /// Sets `agent_mcp_config_path` and leaves every other entry as it is.
    pub fn agent_mcp_config_path(
        self,
        agent_mcp_config_path: String,
    ) -> (builder: AgentConfigBuilder)
        ensures
            builder == (AgentConfigBuilder {
                agent_mcp_config_path: Some(agent_mcp_config_path),
                ..self
            }),
    {
        let mut builder = self;
        builder.agent_mcp_config_path = Some(agent_mcp_config_path);
        builder
    }

    /// Sets `agent_doc_url` and leaves every other entry as it is.
    pub fn agent_doc_url(self, agent_doc_url: String) -> (builder: AgentConfigBuilder)
        ensures
            builder == (AgentConfigBuilder { agent_doc_url: Some(agent_doc_url), ..self }),
    {
        let mut builder = self;
        builder.agent_doc_url = Some(agent_doc_url);
        builder
    }

    /// Sets `agent_tags` and leaves every other entry as it is.
    pub fn agent_tags(self, agent_tags: Vec<String>) -> (builder: AgentConfigBuilder)
        ensures
            builder == (AgentConfigBuilder { agent_tags: Some(agent_tags), ..self }),
    {
        let mut builder = self;
        builder.agent_tags = Some(agent_tags);
        builder
    }

    /// Sets `agent_examples` and leaves every other entry as it is.
    pub fn agent_examples(self, agent_examples: Vec<String>) -> (builder: AgentConfigBuilder)
        ensures
            builder == (AgentConfigBuilder { agent_examples: Some(agent_examples), ..self }),
    {
        let mut builder = self;
        builder.agent_examples = Some(agent_examples);
        builder
    }

    /// Sets `agent_agents_references` and leaves every other entry as it is.
    pub fn agent_agents_references(
        self,
        agent_agents_references: Vec<AgentReference>,
    ) -> (builder: AgentConfigBuilder)
        ensures
            builder == (AgentConfigBuilder {
                agent_agents_references: Some(agent_agents_references),
                ..self
            }),
    {
        let mut builder = self;
        builder.agent_agents_references = Some(agent_agents_references);
        builder
    }

    /// Builds the configuration, or names the first required entry that is
    /// not set. A list that is not set is empty in the configuration.
    pub fn build(self) -> (built: Result<AgentConfig, String>)
        ensures
            built is Err <==> self.missing() is Some,
            built is Err ==> built->Err_0@ == self.missing()->0,
            built is Ok ==> self.builds(built->Ok_0),
    {
        let agent_id = match self.agent_id {
            Some(value) => value,
            None => {
                return Err("agent_id is required".to_string());
            },
        };
        let agent_name = match self.agent_name {
            Some(value) => value,
            None => {
                return Err("agent_name is required".to_string());
            },
        };
        let agent_http_endpoint = match self.agent_http_endpoint {
            Some(value) => value,
            None => {
                return Err("agent_http_endpoint is required".to_string());
            },
        };
        let agent_ws_endpoint = match self.agent_ws_endpoint {
            Some(value) => value,
            None => {
                return Err("agent_ws_endpoint is required".to_string());
            },
        };
        let agent_version = match self.agent_version {
            Some(value) => value,
            None => {
                return Err("agent_version is required".to_string());
            },
        };
        let agent_description = match self.agent_description {
            Some(value) => value,
            None => {
                return Err("agent_description is required".to_string());
            },
        };
        let agent_skill_id = match self.agent_skill_id {
            Some(value) => value,
            None => {
                return Err("agent_skill_id is required".to_string());
            },
        };
        let agent_skill_name = match self.agent_skill_name {
            Some(value) => value,
            None => {
                return Err("agent_skill_name is required".to_string());
            },
        };
        let agent_skill_description = match self.agent_skill_description {
            Some(value) => value,
            None => {
                return Err("agent_skill_description is required".to_string());
            },
        };
        let agent_model_id = match self.agent_model_id {
            Some(value) => value,
            None => {
                return Err("agent_model_id is required".to_string());
            },
        };
        let agent_llm_url = match self.agent_llm_url {
            Some(value) => value,
            None => {
                return Err("agent_llm_url is required".to_string());
            },
        };
        let agent_tags = match self.agent_tags {
            Some(value) => value,
            None => Vec::new(),
        };
        let agent_examples = match self.agent_examples {
            Some(value) => value,
            None => Vec::new(),
        };
        Ok(
            AgentConfig {
                agent_id,
                agent_name,
                agent_http_endpoint,
                agent_ws_endpoint,
                agent_discoverable: self.agent_discoverable,
                agent_executor_url: self.agent_executor_url,
                agent_system_prompt: self.agent_system_prompt,
                agent_version,
                agent_description,
                agent_skill_id,
                agent_skill_name,
                agent_skill_description,
                agent_model_id,
                agent_llm_url,
                agent_mcp_config_path: self.agent_mcp_config_path,
                agent_doc_url: self.agent_doc_url,
                agent_tags,
                agent_examples,
                agent_agents_references: self.agent_agents_references,
            },
        )
    }
}

} // verus!
