pub mod bits;
pub mod date;
pub mod gcp;
pub mod labels;
pub mod primitives;
pub mod rcp;
pub mod registry;
pub mod render;
pub mod text;
pub mod tlv;
