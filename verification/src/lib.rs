//! A minimal leader-rotation state machine.
//!
//! One shared on/off state may be toggled by the peer that currently holds
//! authorship. Any other peer that tries is put in timeout. After each round
//! authorship moves to the peer at the following address, wrapping around to
//! address zero once the addresses are used up.
//!
//! * [`generic_types`] holds the two capability contracts: what a peer is and
//!   what a finite state machine over peers must offer.
//! * [`model`] is the mathematical picture of a machine and of each of its
//!   transitions.
//! * [`machine_simple_impl`] is the boolean machine itself, proved against
//!   the model.
//! * [`laws`] states and proves what holds across several transitions.
//! * [`util`] seeds a peer list.

pub mod generic_types;
pub mod laws;
pub mod machine_simple_impl;
pub mod model;
pub mod util;
