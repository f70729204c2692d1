//! Smoke test of the browser test harness, as a verified state machine.
//!
//! The test body runs against a fixture owned by the harness. Each fixture
//! operation (starting the embedded server, building the test URL,
//! navigating the shell) is outside work: the harness performs it and hands
//! back whether it succeeded. This library decides, from those answers, what
//! to do next and what the test reports.
pub mod body;
pub mod registration;
