//! A layer on top of [`arrow`](https://docs.rs/arrow) which enables arrow
//! arrays to be built and accessed using strongly typed Rust APIs.
//!
//! The crate revolves around the [`Slice`](element::Slice) trait, which gives
//! flat arrays and composite columnar layouts (bit-packed booleans, optional
//! values, lists) the same random-access, iteration and splitting interface,
//! without copying data. Every operation is specified against a mathematical
//! model: a slice stands for a `Seq` of element models, and each method says
//! what it does to that sequence.
//!
//! - [`bitmap`] views bit-packed booleans, such as the null buffer of an
//!   array, as a slice of `bool`.
//! - [`element`] has the slice types of each kind of array element, and the
//!   [`ArrayElement`](element::ArrayElement) trait which tells them.
//! - [`builder`] puts strongly typed elements into Arrow's array builders.
//! - [`validity`] views the null buffer of an array under construction.

pub mod bitmap;
pub mod builder;
pub mod element;
pub mod validity;
