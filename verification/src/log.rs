//! The line that is logged for each incoming request.

use vstd::prelude::*;
use vstd::string::StringExecFns;

verus! {

/// The label that is logged for a request whose region is not known.
pub const UNKNOWN_REGION: &'static str = "unknown region";

/// The coordinates that are logged for a request whose location is not known.
pub const UNKNOWN_COORDINATES: &'static str = "(0.0, 0.0)";

/// The region label of a request: its region, or a fixed label where the
/// platform gives none.
pub open spec fn region_label(region: Option<Seq<char>>) -> Seq<char> {
    match region {
        Some(name) => name,
        None => "unknown region"@,
    }
}

/// The coordinates of a request as they are logged: its own, or the origin
/// where the platform gives none.
pub open spec fn coordinates_label(coordinates: Option<Seq<char>>) -> Seq<char> {
    match coordinates {
        Some(pair) => pair,
        None => "(0.0, 0.0)"@,
    }
}

/// The log line of a request: when it came, its path, and where it came
/// from as far as that is known.
pub open spec fn log_line_of(
    timestamp: Seq<char>,
    path: Seq<char>,
    coordinates: Option<Seq<char>>,
    region: Option<Seq<char>>,
) -> Seq<char> {
    timestamp + " - ["@ + path + "], located at: "@ + coordinates_label(coordinates)
        + ", within: "@ + region_label(region)
}

/// The mathematical value of a text that may be absent.
pub open spec fn text_view(text: Option<&str>) -> Option<Seq<char>> {
    match text {
        Some(t) => Some(t@),
        None => None,
    }
}

/// Writes the log line of a request. Missing geographic data never fails
/// the request: the line then holds the fixed labels in its place.
pub fn log_line(timestamp: &str, path: &str, coordinates: Option<&str>, region: Option<&str>) -> (line:
    String)
    ensures
        line@ == log_line_of(timestamp@, path@, text_view(coordinates), text_view(region)),
{
    let mut line = String::from_str(timestamp);
    line.append(" - [");
    line.append(path);
    line.append("], located at: ");
    line.append(
        match coordinates {
            Some(pair) => pair,
            None => UNKNOWN_COORDINATES,
        },
    );
    line.append(", within: ");
    line.append(
        match region {
            Some(name) => name,
            None => UNKNOWN_REGION,
        },
    );
    line
}

} // verus!
