pub mod dice;
