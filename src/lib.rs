pub mod greeting;
pub mod lifecycle;
