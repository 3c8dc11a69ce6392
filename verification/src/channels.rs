pub mod barrier;
