pub mod trace;
pub mod interfaces;
pub mod entities;
pub mod weapon;
pub mod surface;
pub mod classes;
pub mod model;
