pub mod tank;
