//! Rejections: the typed failures of extractors.

pub mod any_rejections;
