pub mod command;
pub mod evaluator;
pub mod execution;
pub mod expression;
pub mod script;
pub mod smalltalk;
