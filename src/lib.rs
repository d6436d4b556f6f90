pub mod cli;
pub mod git;
pub mod paint;
pub mod print_stack;
pub mod printer;
pub mod repo;
pub mod scanner;
pub mod walker;
