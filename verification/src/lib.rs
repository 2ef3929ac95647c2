//! Attribute-based access control: grants, conditions and the decision that
//! combines them for one request on one resource instance.
//!
//! A request names a resource type and, mostly, one instance of it. Its
//! method and its path give the action it asks for (`action`). A subject may
//! do an action on a resource type if it holds a grant for it; a grant may
//! carry conditions (`condition`), which are evaluated on attributes of the
//! instance (`model`) and are alternatives to each other. The decision
//! (`engine`) is made in steps, between which storage is read, so that it can
//! be driven against any storage; `repository` is storage in memory, with a
//! check from request to decision. `laws` states what holds of every check.
//!
//! `token_auth` decides what an authenticating middleware does with a
//! request, and `permission` holds grants and conditions in the shape they
//! are taken in and handed out.

pub mod action;
pub mod audit;
pub mod condition;
pub mod engine;
pub mod error;
pub mod laws;
pub mod model;
pub mod path;
pub mod permission;
pub mod repository;
pub mod text;
pub mod token_auth;
