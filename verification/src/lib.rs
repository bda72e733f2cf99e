//! Read-only access to the header of a JVM ClassFile: the decoder validates
//! the magic number, extracts the version pair, and parses the constant pool
//! from a big-endian byte stream, proving the result equal to a mathematical
//! description of the wire format.

mod decoder;
mod error;
mod pool;
mod reader;

pub use decoder::read_from;
pub use decoder::ClassFile;
pub use decoder::ClassFileVersion;
pub use decoder::ClassFileView;
pub use error::Error;
pub use error::ErrorView;
pub use pool::read_constant_pool_item;
pub use pool::ConstantPoolItem;
pub use pool::ConstantPoolItemTag;
pub use pool::ConstantPoolItemView;
pub use reader::Reader;
