//! Household-wide settings: the base reporting currency, and how far an AI assistant
//! connected over MCP may reach.

use vstd::prelude::*;

use crate::text::{join2, str_eq, trim, trimmed};

verus! {

/// How far an assistant connected over MCP may reach. Ordered from least to most capable, so
/// a setting can be clamped to a ceiling by taking the smaller.
#[derive(Debug, Clone, Copy, PartialEq, Eq, Ord, Hash, Structural)]
pub enum McpMode {
    /// No MCP endpoint at all. The default.
    Off,
    /// Reads only.
    Read,
    /// Reads and writes.
    Write,
}

impl McpMode {
    /// The wire form of each mode.
    pub open spec fn text(self) -> Seq<char> {
        match self {
            McpMode::Off => "off"@,
            McpMode::Read => "read"@,
            McpMode::Write => "write"@,
        }
    }

    /// The position of each mode from least to most capable.
    pub open spec fn rank(self) -> int {
        match self {
            McpMode::Off => 0,
            McpMode::Read => 1,
            McpMode::Write => 2,
        }
    }

    /// The mode whose wire form is the trimmed `s`, if any.
    pub open spec fn parse_text(s: Seq<char>) -> Option<McpMode> {
        let t = trimmed(s);
        if t == "off"@ {
            Some(McpMode::Off)
        } else if t == "read"@ {
            Some(McpMode::Read)
        } else if t == "write"@ {
            Some(McpMode::Write)
        } else {
            None
        }
    }

    pub fn as_str(self) -> (r: &'static str)
        ensures
            r@ == self.text(),
    {
        match self {
            McpMode::Off => "off",
            McpMode::Read => "read",
            McpMode::Write => "write",
        }
    }

    /// Whether this mode lets an assistant change anything: only `Write` does.
    pub fn writes(self) -> (r: bool)
        ensures
            r == (self == McpMode::Write),
    {
        match self {
            McpMode::Write => true,
            McpMode::Off | McpMode::Read => false,
        }
    }

    /// Read a mode from its wire form, ignoring surrounding whitespace. Anything else is an
    /// error naming what was sent and what is accepted, never a silent default.
    pub fn from_str(s: &str) -> (r: Result<McpMode, String>)
        ensures
            match Self::parse_text(s@) {
                Some(k) => r == Ok::<McpMode, String>(k),
                None => r matches Err(m) && m@ == "unknown MCP mode '"@ + trimmed(s@)
                    + "' (expected off, read or write)"@,
            },
    {
        let t = trim(s);
        let ts = t.as_str();
        if str_eq(ts, "off") {
            Ok(McpMode::Off)
        } else if str_eq(ts, "read") {
            Ok(McpMode::Read)
        } else if str_eq(ts, "write") {
            Ok(McpMode::Write)
        } else {
            let mut m = join2("unknown MCP mode '", ts);
            m.append("' (expected off, read or write)");
            Err(m)
        }
    }

    fn le_rank(self, other: McpMode) -> (r: bool)
        ensures
            r == (self.rank() <= other.rank()),
    {
        let a: u8 = match self {
            McpMode::Off => 0,
            McpMode::Read => 1,
            McpMode::Write => 2,
        };
        let b: u8 = match other {
            McpMode::Off => 0,
            McpMode::Read => 1,
            McpMode::Write => 2,
        };
        a <= b
    }
}

impl Default for McpMode {
    fn default() -> (m: McpMode)
        ensures
            m == McpMode::Off,
    {
        McpMode::Off
    }
}

impl PartialOrd for McpMode {
    fn partial_cmp(&self, other: &McpMode) -> (r: Option<core::cmp::Ordering>) {
        let a = self.le_rank(*other);
        let b = other.le_rank(*self);
        if a && b {
            Some(core::cmp::Ordering::Equal)
        } else if a {
            Some(core::cmp::Ordering::Less)
        } else {
            Some(core::cmp::Ordering::Greater)
        }
    }
}

impl vstd::std_specs::cmp::PartialOrdSpecImpl for McpMode {
    open spec fn obeys_partial_cmp_spec() -> bool {
        true
    }

    open spec fn partial_cmp_spec(&self, other: &McpMode) -> Option<core::cmp::Ordering> {
        if self.rank() < other.rank() {
            Some(core::cmp::Ordering::Less)
        } else if self.rank() == other.rank() {
            Some(core::cmp::Ordering::Equal)
        } else {
            Some(core::cmp::Ordering::Greater)
        }
    }
}

/// Every mode reads back from its wire form as itself.
pub proof fn lemma_mcp_mode_round_trip(k: McpMode)
    ensures
        McpMode::parse_text(k.text()) == Some(k),
{
    reveal_strlit("off");
    reveal_strlit("read");
    reveal_strlit("write");
    assert("off"@.len() == 3);
    assert("read"@.len() == 4);
    assert("write"@.len() == 5);
    crate::text::lemma_first_non_ws_bounds(k.text());
    crate::text::lemma_end_non_ws_bounds(k.text());
    assert(!crate::text::is_whitespace(k.text()[0]));
    assert(!crate::text::is_whitespace(k.text().last()));
    assert(trimmed(k.text()) =~= k.text());
}

/// The modes order from least to most capable, and clamping never raises a mode above its
/// ceiling.
pub proof fn lemma_mcp_mode_order(mode: McpMode, ceiling: McpMode)
    ensures
        McpMode::Off.rank() < McpMode::Read.rank() < McpMode::Write.rank(),
        (if mode.rank() <= ceiling.rank() { mode } else { ceiling }).rank() <= ceiling.rank(),
        (if mode.rank() <= ceiling.rank() { mode } else { ceiling }).rank() <= mode.rank(),
{
}

#[derive(Debug)]
pub struct Settings {
    pub base_currency_code: String,
    pub mcp_mode: McpMode,
    pub updated_at: String,
}

#[derive(Debug)]
pub struct UpdateSettings {
    pub base_currency_code: String,
    pub mcp_mode: Option<McpMode>,
}

} // verus!
