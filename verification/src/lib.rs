//! The core of a terminal price dashboard for a virtual market.
//!
//! The dashboard resolves what the user typed to a product of the market's
//! catalog, polls the market's order books on a fixed interval, and keeps a
//! bounded history of the prices it saw. This crate holds the parts of it
//! that decide and compute:
//!
//! * [`price`]: the best and worst bids and asks of one order book;
//! * [`window`]: the bounded history of samples that the charts are drawn from;
//! * [`text`]: the few operations on text that naming a product needs;
//! * [`resolver`]: the candidate identifiers tried for one user input;
//! * [`catalog`]: a snapshot of the whole market and the search in it;
//! * [`polling`]: the state machine that a front end drives with events.
//!
//! Reading the network, the keyboard, the clock and the terminal is left to
//! the front end. So is floating point: the crate counts prices in whole
//! units of a fixed scale, and time in ticks.

pub mod catalog;
pub mod polling;
pub mod price;
pub mod resolver;
pub mod text;
pub mod window;
