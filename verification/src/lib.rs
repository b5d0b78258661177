//! Decoder for the main file of an ESRI shapefile (`.shp`).
//!
//! The file is taken as bytes in memory. [`reader::ShpReader`] reads the
//! hundred-byte header when it is made and then hands out the records one
//! by one, in file order, until the words that the header declares are
//! used up. [`record::decode_record`] decodes one record body,
//! [`source`] holds the byte source and the fixed-width readers, and
//! [`shape`] the geometry that comes out. [`laws`] states what holds of
//! the decoder as a whole.
//!
//! Coordinates and measures are handed out as the 64-bit patterns of
//! their IEEE-754 encoding; `f64::from_bits` gives the numbers.

pub mod error;
pub mod source;
pub mod shape;
pub mod record;
pub mod reader;
pub mod laws;
