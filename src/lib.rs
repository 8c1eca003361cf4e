pub mod encoding;
pub mod entry;
pub mod error;
pub mod extract;
pub mod smart;

pub use encoding::FilenameEncoding;
pub use error::Error;
