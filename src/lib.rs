pub mod image;
pub mod path;
pub mod ppm;
pub mod traced;
