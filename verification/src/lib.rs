//! A verified core for a plant-breeding garden game.
//!
//! The library models genes with dominance and stat effects, resolves a
//! plant's phenotype from its gene list, splices two parent plants into a
//! seed, grows seeds into plants with recombined names, and advances a
//! garden of planter slots season by season, including stochastic pest
//! attrition and the win/lose rules of the game.

pub mod garden;
pub mod name;
pub mod plant;
pub mod rng;
