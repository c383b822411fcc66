//! A distributed performance-measurement orchestrator: the request/response
//! protocol between a controller and its agents, the agent's resource
//! registry, the artifact store shared by activities, the activity set and
//! the controller's staged schedule.

pub mod activity;
pub mod agent;
pub mod args;
pub mod codec;
pub mod common;
pub mod connection;
pub mod dataflow;
pub mod fio;
pub mod paths;
pub mod poller;
pub mod protocol;
pub mod records;
pub mod run;
pub mod scheduler;
pub mod selfhosted;
pub mod storage;
pub mod types;
