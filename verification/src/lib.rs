//! Onboarding wizard core for the ccline status-line tool.
//!
//! Two verified components: the step-driven wizard state machine
//! (`wizard::IntroApp`), which decides what is shown and which user intents
//! are legal at each point, and the settings writer (`settings::HostConfig`),
//! which merges one `statusLine` entry into the host settings document while
//! leaving every other key untouched.

pub mod content;
pub mod json;
pub mod settings;
pub mod wizard;
