//! Keyboard rule engines: which keys type tones, shapes and the `đ` stroke.
pub mod api;
pub mod default;

pub use api::RuleEngine;
pub use default::{ConfiguredRuleEngine, LayoutError, ShapeRule, ToneRule, TypingRules};
