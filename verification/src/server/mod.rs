pub mod subsystem;
