//! Arithmetization of a three-term add/XOR recurrence as a lookup-based
//! constraint system: a fixed column/selector layout with an addition gate
//! and a 1024-row XOR lookup table, a row-by-row witness synthesizer with
//! copy constraints, and a plain-integer reference oracle for the sequence.

pub mod field;
pub mod layout;
pub mod oracle;
pub mod synth;
pub mod table;
