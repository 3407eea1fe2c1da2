//! Preparing the working file: the header line, then the exported event
//! list as it is.

use vstd::prelude::*;
use vstd::string::StringSliceAdditionalSpecFns;

verus! {

/// The header line that the working file starts with.
pub const CSV_HEADER: &'static str =
    "id,year,month,day,event_name,not_used_int,not_used_string,urgency\n";

/// Where the calendar keeps its exported event list, below the home
/// directory.
pub const SOURCE_FILE: &'static str = ".config/calcure/events.csv";

/// Where the working file is written.
pub const WORKING_FILE: &'static str = "./events.csv";

/// The bytes of the header line.
pub open spec fn header_bytes() -> Seq<u8> {
    CSV_HEADER.spec_bytes()
}

/// The content of the working file for an exported event list: the header
/// line, followed at once by the bytes of the list, unchanged.
pub fn working_file_content(source: &[u8]) -> (content: Vec<u8>)
    ensures
        content@ == header_bytes() + source@,
{
    let header = CSV_HEADER.as_bytes();
    let mut content: Vec<u8> = Vec::new();
    content.extend_from_slice(header);
    content.extend_from_slice(source);
    content
}

} // verus!
