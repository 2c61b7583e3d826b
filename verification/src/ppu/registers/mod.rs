pub mod address;
pub mod control;
pub mod mask;
pub mod oam;
pub mod scroll;
pub mod status;
