pub mod declare;
pub mod modules;
pub mod require;
pub mod serializer;
pub mod sys;
pub mod vm;

pub use require::RootbeerRequirer;
pub use vm::Run;
