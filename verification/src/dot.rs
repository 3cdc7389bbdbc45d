pub mod program;
