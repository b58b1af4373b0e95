//! Game logic of a Jill of the Jungle engine: entity state machines,
//! background collision, object registries and save-slot rules.

use vstd::prelude::*;

pub mod background;
pub mod behaviour;
pub mod bullet;
pub mod checkpoint;
pub mod collision;
pub mod enemies;
pub mod crab;
pub mod decor;
pub mod factory;
pub mod flame_spark;
pub mod frog;
pub mod gator;
pub mod ghost;
pub mod giant_ant;
pub mod grid;
pub mod hazards;
pub mod input;
pub mod items;
pub mod laws;
pub mod layout;
pub mod mechanisms;
pub mod objects;
pub mod pickups;
pub mod player;
pub mod record;
pub mod rng;
pub mod saves;
pub mod session;
pub mod snake;
pub mod transitions;
pub mod world;

verus! {

} // verus!
