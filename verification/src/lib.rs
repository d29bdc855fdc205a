//! Workflow graphs for multi-step agent plans.
//!
//! A plan is a list of activities, each carried out by a remote agent, a
//! local tool or a local sequence of tasks, with dependencies between them
//! and conditions on the outcome of the activity that comes before. This
//! library compiles such a plan into a dependency graph and decides, step by
//! step, how the graph is driven to one final outcome:
//!
//! - `plan`, `decoder`, `graph`: the plan document, its JSON form and the
//!   compiled graph;
//! - `compiler`, `topology`: flattening, validation and the order in which
//!   nodes are visited;
//! - `condition`, `resolver`: whether an edge is satisfied, and which nodes
//!   may run;
//! - `context`, `coordinator`, `aggregator`: the state of a run, its state
//!   machine and its final outcome;
//! - `invariants`: what holds of every run.
//!
//! The library performs no input or output. It says what is to be done
//! outside — which capability to call, whether to try again and after what
//! wait — and takes the results in. Around that core stand the
//! configuration of agents (`factory`, `configuration`, `auth`, `server`),
//! the messages exchanged with models and peers (`chat`, `tools`,
//! `interaction`, `pattern`, `document`) and what agents register and log
//! (`registry`, `evaluation`, `outline`).

pub mod aggregator;
pub mod auth;
pub mod chat;
pub mod compiler;
pub mod condition;
pub mod configuration;
pub mod context;
pub mod coordinator;
pub mod decoder;
pub mod document;
pub mod error;
pub mod evaluation;
pub mod execution;
pub mod factory;
pub mod graph;
pub mod interaction;
pub mod invariants;
pub mod outcomes;
pub mod outline;
pub mod pattern;
pub mod plan;
pub mod registry;
pub mod resolver;
pub mod retry;
pub mod server;
pub mod text;
pub mod tools;
pub mod topology;
