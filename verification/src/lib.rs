pub mod game;
pub mod input;
pub mod props;
pub(crate) mod rng;
