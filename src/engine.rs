pub mod action;
pub mod decision;
pub mod pipeline;
pub mod scoring;
