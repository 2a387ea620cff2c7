//! The business rules around users and their tasks.
//!
//! Each service operation reads or writes through a driven port (a database
//! adapter) and then decides. The decisions stand here as functions of what
//! the port returned; the driver that calls the ports hands those results in.
pub mod todo;
pub mod user;
