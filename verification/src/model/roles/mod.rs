pub mod reaction;
