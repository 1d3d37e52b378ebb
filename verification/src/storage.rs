//! Account state and the rent that keeps it alive, and the sizing of the
//! store that holds it.

pub mod db;
pub mod state_compliance;
