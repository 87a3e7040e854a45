//! Decision logic of the LACT GPU control panel: CSS class extraction,
//! clock adjustment groups, thermal settings, page navigation and the
//! NVIDIA PowerMizer mode handling, each with its contract.

pub mod clocks;
pub mod lex;
pub mod css_parser;
pub mod adjustment_group;
pub mod thermals;
pub mod text;
pub mod files;
pub mod startup;
pub mod confirmation;
pub mod page_navigation;
pub mod powermizer;
pub mod error_text;
pub mod msg;
pub mod app_state;
pub mod daemon_tasks;
pub mod content;
pub mod gpu_config;
pub mod loading;
