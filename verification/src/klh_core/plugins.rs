pub mod buffers;
pub mod diagnostics;
pub mod display;
