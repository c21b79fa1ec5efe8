pub mod slider;
