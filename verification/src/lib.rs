//! A small library of verified object-oriented design-pattern cores.
//!
//! Its centrepiece is a mediator-style arbiter for one shared resource slot:
//! a train station that grants its single platform to one named train at a
//! time, queues the trains that arrive while the platform is held, and
//! promotes the head of the queue whenever the platform is released
//! ([`station`], with its mathematical model and laws in [`model`]).
//!
//! Around it stand a few smaller verified pattern cores: an adapter
//! ([`adapter`]), a chain of responsibility ([`chain`]), a media-player
//! playlist with its cursor arithmetic ([`player`]), and some one-type
//! miniatures ([`person`], [`data`], [`counter`]).

pub mod adapter;
pub mod chain;
pub mod counter;
pub mod data;
pub mod model;
pub mod person;
pub mod player;
pub mod station;
