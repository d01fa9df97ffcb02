//! What the server tells of itself.

use crate::server::JasperMcp;
use vstd::prelude::*;

verus! {

/// What a server can announce. Where tools are announced, the value says whether
/// changes of the list of tools are announced too, as far as that is said.
pub struct Capabilities {
    pub experimental: bool,
    pub extensions: bool,
    pub logging: bool,
    pub completions: bool,
    pub prompts: bool,
    pub resources: bool,
    pub tools: Option<Option<bool>>,
}

/// What the server tells of itself.
pub struct ServerConfig {
    pub protocol_version: String,
    pub capabilities: Capabilities,
    pub name: String,
    pub version: String,
    pub instructions: Option<String>,
}

/// Whether this build has the MCP endpoint; the settings page shows its section
/// only where it does.
pub const ENABLED: bool = true;

/// The name of the server.
pub const SERVER_NAME: &'static str = "jasper";

/// What clients are told of how to use the server.
pub const INSTRUCTIONS: &'static str =
    "Jasper 是一个 Joplin 兼容的笔记库。笔记与笔记本的 id 都是 32 位十六进制字符串；正文是 Markdown。笔记本 id 为空串代表「未分类」。先用 search_notes / list_folders 定位，再用 get_note 读正文；update_note 是整篇覆盖，改之前务必先读回原文。删除类工具不可撤销，执行前请向用户确认。";

/// The newest version of the protocol.
pub const LATEST_PROTOCOL: &'static str = "2026-07-28";

/// `rmcp::model::ProtocolVersion::LATEST`, as text: the newest version of the
/// protocol that the `rmcp` crate knows.
#[verifier::external_body]
fn latest_protocol_version() -> (version: String)
    ensures
        version@ == LATEST_PROTOCOL@,
{
    rmcp::model::ProtocolVersion::LATEST.as_str().to_owned()
}

/// Only tools are announced, and nothing is said of changes of their list.
pub open spec fn tools_only() -> Capabilities {
    Capabilities {
        experimental: false,
        extensions: false,
        logging: false,
        completions: false,
        prompts: false,
        resources: false,
        tools: Some(None),
    }
}

/// `rmcp::model::ServerCapabilities::builder` with `enable_tools` and `build`:
/// tools are announced, nothing is said of changes of their list, and nothing
/// else is announced.
#[verifier::external_body]
fn tool_capabilities() -> (capabilities: Capabilities)
    ensures
        capabilities == tools_only(),
{
    let built = rmcp::model::ServerCapabilities::builder().enable_tools().build();
    Capabilities {
        experimental: built.experimental.is_some(),
        extensions: built.extensions.is_some(),
        logging: built.logging.is_some(),
        completions: built.completions.is_some(),
        prompts: built.prompts.is_some(),
        resources: built.resources.is_some(),
        tools: built.tools.map(|tools| tools.list_changed),
    }
}

impl JasperMcp {
    /// What the server tells of itself; `version` is that of the running build.
    pub fn get_info(&self, version: &str) -> (info: ServerConfig)
        ensures
            info.protocol_version@ == LATEST_PROTOCOL@,
            info.capabilities == tools_only(),
            info.capabilities.tools is Some,
            !info.capabilities.prompts && !info.capabilities.resources,
            info.name@ == SERVER_NAME@,
            info.version@ == version@,
            info.instructions matches Some(text) && text@ == INSTRUCTIONS@,
    {
        ServerConfig {
            protocol_version: latest_protocol_version(),
            capabilities: tool_capabilities(),
            name: SERVER_NAME.to_owned(),
            version: version.to_owned(),
            instructions: Some(INSTRUCTIONS.to_owned()),
        }
    }
}

} // verus!
