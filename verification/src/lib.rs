//! The verified core of a terminal manager for VMware Fusion virtual machines.
pub mod text;
pub mod config;
pub mod paths;
pub mod vmx;
pub mod vm;
pub mod vmrun;
pub mod vmrest;
pub mod ui;
pub mod manager;
pub mod event;
