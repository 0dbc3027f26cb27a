//! Renders a day-by-day, repository-by-repository timeline of one user's public activity.

pub mod classify;
pub mod events;
pub mod key;
pub mod model;
pub mod organize;
pub mod printer;
pub mod sorting;
pub mod text;
