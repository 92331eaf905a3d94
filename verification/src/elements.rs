pub mod div;
pub mod svg;
