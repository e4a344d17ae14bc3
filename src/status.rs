use vstd::prelude::*;
use vstd::string::StringExecFns;

use crate::text::same_text;

verus! {

/// Where a control connection stands with respect to authentication.
#[derive(Clone, Copy, Debug, PartialEq, Eq, Structural)]
pub enum ConnectionState {
    NotLoggedIn,
    Disconnected,
    LoggedIn,
    Annonymous,
}

/// How the data channel carries a transfer. Only `Stream` moves data.
#[derive(Clone, Copy, Debug, PartialEq, Eq, Structural)]
pub enum TransferMode {
    Active,
    Passive,
    Stream,
    Block,
    Compressed,
}

/// How file bytes are represented on the data channel.
#[derive(Clone, Copy, Debug, PartialEq, Eq, Structural)]
pub enum TransferType {
    /// 7-bit text: line feeds travel as CR LF.
    Ascii,
    /// 8-bit bytes, copied as they are.
    Binary,
    /// Extended Binary Coded Decimal Interchange Code: accepted, but no file can be sent in it.
    EBCDIC,
}

/// The logical structure of a transferred file. Only `File` moves data.
#[derive(Clone, Copy, Debug, PartialEq, Eq, Structural)]
pub enum TransferStructure {
    File,
    Record,
    Page,
}

/// The mode named by a `MODE` code; an unknown code means `Stream`.
pub open spec fn mode_of_code(s: Seq<char>) -> TransferMode {
    if s == "A"@ {
        TransferMode::Active
    } else if s == "P"@ {
        TransferMode::Passive
    } else if s == "B"@ {
        TransferMode::Block
    } else if s == "C"@ {
        TransferMode::Compressed
    } else {
        TransferMode::Stream
    }
}

/// The type named by a `TYPE` code; an unknown code means `Ascii`.
pub open spec fn type_of_code(s: Seq<char>) -> TransferType {
    if s == "I"@ {
        TransferType::Binary
    } else if s == "E"@ {
        TransferType::EBCDIC
    } else {
        TransferType::Ascii
    }
}

/// The structure named by a `STRU` code; an unknown code means `File`.
pub open spec fn structure_of_code(s: Seq<char>) -> TransferStructure {
    if s == "R"@ {
        TransferStructure::Record
    } else if s == "P"@ {
        TransferStructure::Page
    } else {
        TransferStructure::File
    }
}

pub open spec fn mode_name(m: TransferMode) -> Seq<char> {
    match m {
        TransferMode::Active => "Active"@,
        TransferMode::Passive => "Passive"@,
        TransferMode::Stream => "Stream"@,
        TransferMode::Block => "Block"@,
        TransferMode::Compressed => "Compressed"@,
    }
}

pub open spec fn transfer_type_name(t: TransferType) -> Seq<char> {
    match t {
        TransferType::Ascii => "ASCII"@,
        TransferType::Binary => "Binary"@,
        TransferType::EBCDIC => "EBCDIC"@,
    }
}

pub open spec fn structure_name(s: TransferStructure) -> Seq<char> {
    match s {
        TransferStructure::File => "File"@,
        TransferStructure::Record => "Record"@,
        TransferStructure::Page => "Page"@,
    }
}

impl<'a> From<&'a str> for TransferMode {
    fn from(s: &'a str) -> (r: TransferMode) {
        if same_text(s, "A") {
            TransferMode::Active
        } else if same_text(s, "P") {
            TransferMode::Passive
        } else if same_text(s, "B") {
            TransferMode::Block
        } else if same_text(s, "C") {
            TransferMode::Compressed
        } else {
            TransferMode::Stream
        }
    }
}

impl<'a> vstd::std_specs::convert::FromSpecImpl<&'a str> for TransferMode {
    open spec fn obeys_from_spec() -> bool {
        true
    }

    open spec fn from_spec(s: &'a str) -> TransferMode {
        mode_of_code(s@)
    }
}

impl<'a> From<&'a str> for TransferType {
    fn from(s: &'a str) -> (r: TransferType) {
        if same_text(s, "I") {
            TransferType::Binary
        } else if same_text(s, "E") {
            TransferType::EBCDIC
        } else {
            TransferType::Ascii
        }
    }
}

impl<'a> vstd::std_specs::convert::FromSpecImpl<&'a str> for TransferType {
    open spec fn obeys_from_spec() -> bool {
        true
    }

    open spec fn from_spec(s: &'a str) -> TransferType {
        type_of_code(s@)
    }
}

impl<'a> From<&'a str> for TransferStructure {
    fn from(s: &'a str) -> (r: TransferStructure) {
        if same_text(s, "R") {
            TransferStructure::Record
        } else if same_text(s, "P") {
            TransferStructure::Page
        } else {
            TransferStructure::File
        }
    }
}

impl<'a> vstd::std_specs::convert::FromSpecImpl<&'a str> for TransferStructure {
    open spec fn obeys_from_spec() -> bool {
        true
    }

    open spec fn from_spec(s: &'a str) -> TransferStructure {
        structure_of_code(s@)
    }
}

impl TransferMode {
    /// The name shown in replies.
    pub fn to_string(&self) -> (r: String)
        ensures
            r@ == mode_name(*self),
    {
        match self {
            TransferMode::Active => String::from_str("Active"),
            TransferMode::Passive => String::from_str("Passive"),
            TransferMode::Stream => String::from_str("Stream"),
            TransferMode::Block => String::from_str("Block"),
            TransferMode::Compressed => String::from_str("Compressed"),
        }
    }
}

impl TransferType {
    /// The name shown in replies.
    pub fn to_string(&self) -> (r: String)
        ensures
            r@ == transfer_type_name(*self),
    {
        match self {
            TransferType::Ascii => String::from_str("ASCII"),
            TransferType::Binary => String::from_str("Binary"),
            TransferType::EBCDIC => String::from_str("EBCDIC"),
        }
    }
}

impl TransferStructure {
    /// The name shown in replies.
    pub fn to_string(&self) -> (r: String)
        ensures
            r@ == structure_name(*self),
    {
        match self {
            TransferStructure::File => String::from_str("File"),
            TransferStructure::Record => String::from_str("Record"),
            TransferStructure::Page => String::from_str("Page"),
        }
    }
}

} // verus!
