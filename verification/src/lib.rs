//! Input-resolution core of a split mechanical keyboard.
//!
//! The pipeline runs once per polling cycle: a debounced matrix scan produces
//! a boolean grid ([`matrix`]), the grid is written into the key behavior
//! table, the table is resolved into the set of asserted scan codes under the
//! active layer ([`keys`], with the key identifiers of [`codes`]), and the
//! scan codes are folded into HID keyboard and mouse reports ([`descriptor`]),
//! diffed against the last reports sent ([`report`]).
//!
//! Hardware access (GPIO strobing, edge wakeups, the transports that carry
//! the finished reports) lives outside this crate; the core receives plain
//! boolean samples and millisecond timestamps ([`time`]) and hands back plain
//! report values. [`bond`] holds the small pure helpers of the bond store
//! that the transports share.

pub mod bond;
pub mod codes;
pub mod descriptor;
pub mod keys;
pub mod matrix;
pub mod report;
pub mod time;
