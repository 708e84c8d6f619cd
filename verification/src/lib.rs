//! ECN path validation for a QUIC transport.
//!
//! An endpoint that marks its datagrams as ECN-capable has to find out, path
//! by path, whether the network carries the marks. [`info::Info`] is the
//! record that it keeps of a path: it tells the sender whether to mark,
//! takes in what is sent, acknowledged and lost, and compares the counts
//! that the peer reports with what was sent. [`model`] states what each of
//! these events makes of a path, over natural numbers and mappings, and
//! [`laws`] proves what holds whatever happens.
//!
//! Apart from this, [`values`] holds some of the values that properties of
//! style sheets take.

pub mod codepoint;
pub mod count;
pub mod info;
pub mod laws;
pub mod model;
pub mod packet;
pub mod sent;
pub mod stats;
pub mod validation;
pub mod values;
