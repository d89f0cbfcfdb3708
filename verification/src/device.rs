pub mod blanking;
pub mod bus;
pub mod keyboard;
pub mod uart;
pub mod via;
pub mod vid;
