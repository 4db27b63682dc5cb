//! The rules of a small coffee-shop game that is played in a terminal.
//!
//! Customers arrive on a timer and queue up in a line of limited length;
//! the game is over when one arrives and finds the line full. Several loops
//! run side by side: one draws the screen, one reads the keyboard, one lets
//! customers arrive, and one handles the events that the others publish.
//!
//! This crate holds what those loops decide and compute, as functions from
//! plain values to plain values: [`store`] is the state they share and
//! [`events`] the messages they exchange; [`spawner`], [`input`] and
//! [`sleep`] say what a loop does next; [`render`] computes what is on the
//! screen and which parts of it have to be redrawn; [`config`] holds the
//! settings, [`hoverable`] the menu items, and [`customer`] and [`player`]
//! the two kinds of record. [`play`] states what the spawner and the
//! dispatcher add up to. Waiting, locking, the terminal and the event bus
//! itself are left to the program that runs the loops.

pub mod config;
pub mod customer;
pub mod events;
pub mod hoverable;
pub mod input;
pub mod play;
pub mod player;
pub mod render;
pub mod sleep;
pub mod spawner;
pub mod store;
