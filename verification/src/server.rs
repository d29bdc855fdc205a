//! What an agent server settles before it starts to listen: where it binds,
//! how it lets callers in, and how it describes itself for discovery.

use vstd::prelude::*;
use crate::auth::{AuthConfig, AuthConfigView};
use crate::configuration::AgentConfig;
use crate::document::{json_is_null, null_document};
use crate::registry::{AgentDefinition, AgentSkillDefinition};
use crate::text::{clone_texts, remove_all, removing, texts};

verus! {

/// The address that a server binds to: its endpoint without the scheme
/// `http://`.
pub fn bind_address(endpoint: &str) -> (address: String)
    ensures
        address@ == removing(endpoint@, "http://"@),
{
    remove_all(endpoint, "http://")
}

/// How a server lets its callers in.
#[derive(Debug, Clone)]
pub enum ServerAccess {
    /// Anyone may call.
    Open,
    /// A caller presents one of these bearer tokens.
    Bearer(Vec<String>),
}

pub enum ServerAccessView {
    Open,
    Bearer(Seq<Seq<char>>),
}

impl View for ServerAccess {
    type V = ServerAccessView;

    open spec fn view(&self) -> ServerAccessView {
        match self {
            ServerAccess::Open => ServerAccessView::Open,
            ServerAccess::Bearer(tokens) => ServerAccessView::Bearer(texts(tokens@)),
        }
    }
}

/// The access that a configuration asks for. Bearer tokens are checked; API
/// keys are not supported yet, so a server that is configured with them is
/// open, as one without authentication is.
pub open spec fn access_of(auth: AuthConfigView) -> ServerAccessView {
    match auth {
        AuthConfigView::BearerToken { tokens, format } => ServerAccessView::Bearer(tokens),
        _ => ServerAccessView::Open,
    }
}

/// How a server with the configuration `auth` lets its callers in.
pub fn server_access(auth: &AuthConfig) -> (access: ServerAccess)
    ensures
        access@ == access_of(auth@),
{
    match auth {
        AuthConfig::BearerToken { tokens, format } => ServerAccess::Bearer(clone_texts(tokens)),
        _ => ServerAccess::Open,
    }
}

/// Whether an agent registers itself with the discovery service: only where
/// its configuration says that it is discoverable.
pub fn registers(config: &AgentConfig) -> (discoverable: bool)
    ensures
        discoverable == (config.agent_discoverable == Some(true)),
{
    match config.agent_discoverable() {
        Some(true) => true,
        _ => false,
    }
}

/// `definition` describes the agent of `config` under the id `id`, reached
/// at its HTTP endpoint, with its one skill, whose parameters and output are
/// left open.
pub open spec fn describes(
    config: AgentConfig,
    id: Seq<char>,
    definition: AgentDefinition,
) -> bool {
    &&& definition.id@ == id
    &&& definition.name@ == config.agent_name@
    &&& definition.description@ == config.agent_description@
    &&& definition.agent_endpoint@ == config.agent_http_endpoint@
    &&& definition.skills@.len() == 1
    &&& definition.skills@[0].name@ == config.agent_skill_name@
    &&& definition.skills@[0].description@ == config.agent_skill_description@
    &&& json_is_null(definition.skills@[0].parameters)
    &&& json_is_null(definition.skills@[0].output)
}

/// The definition under which an agent registers for discovery.
pub fn agent_definition(config: &AgentConfig, id: String) -> (definition: AgentDefinition)
    ensures
        describes(*config, id@, definition),
{
    let mut skills: Vec<AgentSkillDefinition> = Vec::new();
    skills.push(
        AgentSkillDefinition {
            name: config.agent_skill_name(),
            description: config.agent_skill_description(),
            parameters: null_document(),
            output: null_document(),
        },
    );
    AgentDefinition {
        id,
        name: config.agent_name(),
        description: config.agent_description(),
        agent_endpoint: config.agent_http_endpoint(),
        skills,
    }
}

} // verus!
