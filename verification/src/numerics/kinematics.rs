pub mod flat_chain;
