//! Symbol resolution over binary structures mapped in an address space:
//! export tables of loaded images and the loader's module lists.
pub mod err;
pub mod memory;
pub mod pe;
pub mod peb;
