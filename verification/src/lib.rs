//! The inbound framing and masquerading pipeline of a relay node, and the
//! books of the test cluster that such nodes are run in.
//!
//! A [`discriminator::Discriminator`] owns a [`framer::Framer`] and an ordered
//! list of [`masquerader::XYZPROTECT_PulseCloakuerader`]s. Octets go in through
//! `add_data`; each frame that the framer cuts is offered to the masqueraders
//! in order, and the first that unmasks it decides the payload that
//! `take_chunk` hands out. Two masqueraders come with the library: the
//! pass-through one and the one that wraps payloads in a JSON object.

pub mod base64_text;
pub mod cluster_commands;
pub mod discriminator;
pub mod framer;
pub mod json;
pub mod json_masquerader;
pub mod line_framer;
pub mod logger;
pub mod masquerader;
pub mod name_table;
pub mod node_cluster;
pub mod null_masquerader;
pub mod text;
pub mod utf8;
