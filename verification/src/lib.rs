//! Calendar and time-zone helpers: conversion of timestamp text between a
//! named time zone and UTC, the last day of a month, and the Monday and Sunday
//! that bound a week.
//!
//! Dates and times are plain values of this crate. The time-zone database and
//! the pattern-driven parser come from `chrono` and `chrono-tz`; every call
//! into them is a small function in [`chrono_ops`] whose contract is assumed.

pub mod calendar;
pub mod error;
pub mod naive;
pub mod chrono_ops;
pub mod date_util;
