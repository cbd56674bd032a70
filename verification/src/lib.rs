//! Overwatch: a diagnostic packet inspector.
//!
//! The library holds the logic of the inspector. The filter compiler
//! (`snoop`) turns the match criteria of a capture (`cli`) into prioritized
//! entries of ternary match tables. The protocol renderer (`dump`) turns the
//! decoded header chain of a frame (`headers`) into lines of styled text
//! (`text`), with the help of the code tables (`codes`) and the address
//! formats (`addr`). The batch loader (`hex_read`) reads frames from lines of
//! hexadecimal digits.
//!
//! Capturing frames, decoding their headers, and writing the lines to a
//! terminal are left to the program around the library.

pub mod addr;
pub mod cli;
pub mod codes;
pub mod dump;
pub mod headers;
pub mod hex_read;
pub mod snoop;
pub mod text;
