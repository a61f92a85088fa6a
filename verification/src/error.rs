//! Conversion errors: a status code of the engine, and its description.

use crate::decimal::{decimal, push_decimal};
use libc::c_int;
use vstd::prelude::*;

verus! {

/// The engine could not get memory.
pub const MALLOC_FAILED: c_int = 1;

/// The ratio lies outside what the engine converts by.
pub const BAD_SRC_RATIO: c_int = 6;

/// No kernel answers to the tag.
pub const BAD_CONVERTER: c_int = 10;

/// The channel count is zero, or more than the engine counts to.
pub const BAD_CHANNEL_COUNT: c_int = 11;

/// The engine reported something that cannot be.
pub const BAD_INTERNAL_STATE: c_int = 22;

/// What the engine says of a status code, for the codes that it knows.
pub open spec fn description_of(code: int) -> Option<Seq<char>> {
    if code == 0 {
        Some("No error."@)
    } else if code == 1 {
        Some("Malloc failed."@)
    } else if code == 2 {
        Some("SRC_STATE pointer is NULL."@)
    } else if code == 3 {
        Some("SRC_DATA pointer is NULL."@)
    } else if code == 4 {
        Some("SRC_DATA->data_out is NULL."@)
    } else if code == 5 {
        Some("Internal error. No private data."@)
    } else if code == 6 {
        Some("SRC ratio outside [1/256, 256] range."@)
    } else if code == 7 {
        Some("Internal error. No process pointer."@)
    } else if code == 8 {
        Some("Internal error. SHIFT_BITS too large."@)
    } else if code == 9 {
        Some("Internal error. Filter length too large."@)
    } else if code == 10 {
        Some("Bad converter number."@)
    } else if code == 11 {
        Some("Channel count must be >= 1."@)
    } else if code == 12 {
        Some("Internal error. Bad buffer length. Please report this."@)
    } else if code == 13 {
        Some(
            "Internal error. Input data / internal buffer size difference. Please report this."@,
        )
    } else if code == 14 {
        Some("Internal error. Private pointer is NULL. Please report this."@)
    } else if code == 15 {
        Some("src_process() called without reset after end_of_input."@)
    } else if code == 16 {
        Some("Input and output data arrays overlap."@)
    } else if code == 17 {
        Some("Supplied callback function pointer is NULL."@)
    } else if code == 18 {
        Some("Calling mode differs from initialisation mode (ie process v callback)."@)
    } else if code == 19 {
        Some("Callback function pointer is NULL in src_callback_read ()."@)
    } else if code == 20 {
        Some("This converter only allows constant conversion ratios."@)
    } else if code == 21 {
        Some("Internal error : Bad length in prepare_data ()."@)
    } else if code == 22 {
        Some("Error : Someone is trampling on my internal state."@)
    } else if code == 23 {
        Some("Placeholder. No error defined for this error number."@)
    } else {
        None
    }
}

/// What an error with the given code reads as: its description, or the code
/// itself where the engine has no words for it.
pub open spec fn message_of(code: int) -> Seq<char> {
    match description_of(code) {
        Some(text) => text,
        None => "unknown ("@ + decimal(code) + ")"@,
    }
}

/// The characters of a text that may be absent.
pub open spec fn text_view(text: Option<&'static str>) -> Option<Seq<char>> {
    match text {
        Some(t) => Some(t@),
        None => None,
    }
}

/// What the engine says of a status code, for the codes that it knows.
pub fn describe(code: c_int) -> (text: Option<&'static str>)
    ensures
        text_view(text) == description_of(code as int),
        text is Some <==> 0 <= code <= 23,
{
    match code {
        0 => Some("No error."),
        1 => Some("Malloc failed."),
        2 => Some("SRC_STATE pointer is NULL."),
        3 => Some("SRC_DATA pointer is NULL."),
        4 => Some("SRC_DATA->data_out is NULL."),
        5 => Some("Internal error. No private data."),
        6 => Some("SRC ratio outside [1/256, 256] range."),
        7 => Some("Internal error. No process pointer."),
        8 => Some("Internal error. SHIFT_BITS too large."),
        9 => Some("Internal error. Filter length too large."),
        10 => Some("Bad converter number."),
        11 => Some("Channel count must be >= 1."),
        12 => Some("Internal error. Bad buffer length. Please report this."),
        13 => Some(
            "Internal error. Input data / internal buffer size difference. Please report this.",
        ),
        14 => Some("Internal error. Private pointer is NULL. Please report this."),
        15 => Some("src_process() called without reset after end_of_input."),
        16 => Some("Input and output data arrays overlap."),
        17 => Some("Supplied callback function pointer is NULL."),
        18 => Some("Calling mode differs from initialisation mode (ie process v callback)."),
        19 => Some("Callback function pointer is NULL in src_callback_read ()."),
        20 => Some("This converter only allows constant conversion ratios."),
        21 => Some("Internal error : Bad length in prepare_data ()."),
        22 => Some("Error : Someone is trampling on my internal state."),
        23 => Some("Placeholder. No error defined for this error number."),
        _ => None,
    }
}

/// Conversion error.
///
/// It carries the engine's status code and, where the engine has words for
/// that code, its description. Two errors are equal when their codes are.
#[derive(Debug, Clone, Copy, Eq)]
pub struct Error {
    code: c_int,
    desc: Option<&'static str>,
}

impl View for Error {
    type V = int;

    /// An error is its code.
    closed spec fn view(&self) -> int {
        self.code as int
    }
}

impl Error {
    /// The description goes with the code.
    #[verifier::type_invariant]
    spec fn well_formed(self) -> bool {
        text_view(self.desc) == description_of(self.code as int)
    }

    /// The description that this error carries.
    pub closed spec fn description_spec(&self) -> Option<Seq<char>> {
        text_view(self.desc)
    }

    /// The error with the given status code.
    pub fn from_code(code: c_int) -> (e: Error)
        ensures
            e@ == code,
            e.description_spec() == description_of(code as int),
    {
        Error { code, desc: describe(code) }
    }

    /// The status code.
    pub fn code(&self) -> (c: c_int)
        ensures
            c == self@,
    {
        self.code
    }

    /// The description, where the engine has words for the code.
    pub fn description(&self) -> (text: Option<&'static str>)
        ensures
            text_view(text) == description_of(self@),
            text_view(text) == self.description_spec(),
    {
        proof {
            use_type_invariant(self);
        }
        self.desc
    }

    /// What this error reads as: its description, or `unknown (` code `)`.
    pub fn to_string(&self) -> (text: String)
        ensures
            text@ == message_of(self@),
    {
        proof {
            use_type_invariant(self);
        }
        match self.desc {
            Some(desc) => String::from_str(desc),
            None => {
                let mut text = String::from_str("unknown (");
                push_decimal(&mut text, self.code);
                text.append(")");
                text
            },
        }
    }
}

impl PartialEq for Error {
    fn eq(&self, other: &Error) -> (same: bool) {
        self.code == other.code
    }
}

impl vstd::std_specs::cmp::PartialEqSpecImpl for Error {
    open spec fn obeys_eq_spec() -> bool {
        true
    }

    open spec fn eq_spec(&self, other: &Error) -> bool {
        self@ == other@
    }
}

} // verus!
