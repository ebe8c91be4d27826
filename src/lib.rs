pub mod metric;
pub mod scanner;
pub mod syntax;
pub mod run;
