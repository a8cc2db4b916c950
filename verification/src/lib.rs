//! Verified state and decision logic for CRUD instances: pagination, ordering,
//! selection, action bookkeeping, instance navigation and notifications.

pub mod text;
pub mod pagination;
pub mod order;
pub mod view;
pub mod selection;
pub mod toast;
pub mod action;
pub mod action_context;
pub mod instance_config;
pub mod delete;
pub mod instance;
pub mod instance_component;
pub mod edit_view;
pub mod instance_mgr;
pub mod view_logic;
pub mod create_view;
pub mod renderer_registry;
pub mod button;
pub mod related_field;
pub mod toasts;
