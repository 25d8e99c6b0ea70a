pub mod audio;
pub mod drawing;
pub mod serial;
pub mod video;
pub mod peripheral;
pub mod rsp;
pub mod pif;
pub mod rdram;
pub mod cartridge;
