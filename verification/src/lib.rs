//! Animatrix: the verified core of a local-first studio for AI-assisted video production.
//!
//! The studio's channels, projects, jobs, assets and events, the routing of model requests to
//! providers, and the dashboard's command language and state, each stated by its contract and
//! proved by Verus. Storage, the event log and the user interface live in `app/`.

pub mod outside;
pub mod text;
pub mod paths;

pub mod base;
pub mod domain;
pub mod ai;
pub mod router;
pub mod jobs;
pub mod assets;
pub mod events;
pub mod project;
pub mod storage;
pub mod studio;
