//! Routing contracts: what a caller wants, what routes there are, and what a decision is made of.
pub mod catalog;
pub mod context;
pub mod decision;
pub mod metadata;
pub mod route;
pub mod laws;
