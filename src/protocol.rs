pub mod decode;
pub mod encode;
pub mod round_trip;
