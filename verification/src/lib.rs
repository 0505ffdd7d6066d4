//! A deterministic host for messaging provider modules: capability
//! implementations, a scripted HTTP transport, requirement validation and
//! the send and ingress pipelines, with their behaviour stated as contracts.

pub mod assoc;
pub mod bridge;
pub mod card;
pub mod cli;
pub mod codec;
pub mod directline;
pub mod dto;
pub mod envelope;
pub mod flow_gen;
pub mod host;
pub mod http_mock;
pub mod ingress;
pub mod json;
pub mod jwt;
pub mod pipeline;
pub mod requirements;
pub mod tester;
pub mod text;
pub mod values;
pub mod webex;
