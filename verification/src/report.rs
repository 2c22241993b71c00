pub mod agent_pack;
pub mod data;
pub mod renderers;
pub mod sarif;
