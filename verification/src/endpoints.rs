//! The operations that the gateway offers on registered programs.

pub mod execute;
pub mod info;
pub mod prove;
pub mod register;
pub mod verify;

pub use execute::execute_program;
pub use prove::prove_program;
pub use register::register_program;
pub use verify::verify_proof;
