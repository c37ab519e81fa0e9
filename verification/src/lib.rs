//! ERP AI core library: the verified logic of a multi-tenant IAM service
//! (organisation chart, roles and permissions, approval workflow, JWT auth)
//! and of its AI command assistant.

pub mod ai;
pub mod auth;
pub mod errors;
pub mod iam_models;
pub mod iam_rules;
pub mod ids;
pub mod json;
pub mod migrations;
pub mod org_tree;
pub mod password;
pub mod permission_gate;
pub mod service;
pub mod settings;
pub mod skills;
pub mod text;
