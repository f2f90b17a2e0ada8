//! IC markers: zero-size type tags that bind a driver handle to one device
//! variant and thereby to one set of channel and position rules.

use vstd::prelude::*;

use crate::private::Sealed;

verus! {

/// MCP401x IC marker: a single-channel part on the two-wire bus that
/// accepts positions 0–127.
pub struct Mcp401x(());

/// MCP41x IC marker: a single-channel part on SPI that accepts the full
/// 0–255 position range.
pub struct Mcp41x(());

/// MCP42x IC marker: a dual-channel part on SPI that accepts the full
/// 0–255 position range.
pub struct Mcp42x(());

impl Sealed for Mcp401x {}

impl Sealed for Mcp41x {}

impl Sealed for Mcp42x {}

} // verus!
