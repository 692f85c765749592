//! A small simulation of pet cats: their generation, care, breeding and ageing.

pub mod calendar;
pub mod cat;
pub mod chance;
pub mod herd;
pub mod inventory;
pub mod kinds;
pub mod laws;
pub mod text;
