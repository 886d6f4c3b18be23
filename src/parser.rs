pub mod nginx;

pub use nginx::{parse_line, ParsedEvent};
