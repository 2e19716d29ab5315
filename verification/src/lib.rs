//! Core logic of the Pausa focus timer: work cycles, strict mode, onboarding
//! validation and the bookkeeping around them, with their contracts.

pub mod errors;
pub mod text;
pub mod clock;
pub mod models;
pub mod api_models;
pub mod state_manager;
pub mod cycle_flow;
pub mod notification_service;
pub mod work_schedule;
pub mod window_manager;
pub mod backup;
pub mod migrations;
pub mod cycle_config;
pub mod oauth;
pub mod hotkey_manager;
pub mod tray;
pub mod telemetry;
pub mod cycle_orchestrator;
pub mod strict_mode;
pub mod onboarding;
