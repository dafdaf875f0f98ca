pub mod key;
pub mod prefix;
pub mod recorder;
