//! Verified domain logic for task properties, task readiness, reauthentication
//! receipts and audited company role changes.

pub mod ids;
pub mod json;
pub mod property_value;
pub mod reauthentication;
pub mod decision_state;
pub mod business_role_change;
pub mod task_status;
pub mod dependency_readiness;
pub mod subtask_hierarchy;
pub mod errors;
pub mod access;
pub mod scoped_projection;
pub mod dependency_relations;
pub mod status_transition;
pub mod dependency_write;
pub mod dependency_requests;
pub mod task_hierarchy;
pub mod notifications;
pub mod property_rules;
