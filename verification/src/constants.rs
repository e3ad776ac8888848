//! The names under which the host finds this library.

use vstd::prelude::*;
use vstd::string::*;
use vstd::utf8::*;
use crate::text::{first_dot, index_of_dot, lemma_first_dot};

verus! {

/// The major version: what stands before the first `.` of `version`, or all
/// of `version` where it holds none.
pub fn major_version(version: &str) -> (major: &str)
    ensures
        encode_utf8(major@) == encode_utf8(version@).subrange(
            0,
            first_dot(encode_utf8(version@)),
        ),
{
    let at = index_of_dot(version);
    proof {
        let bytes = encode_utf8(version@);
        lemma_first_dot(bytes);
        encode_utf8_valid_utf8(version@);
        if at < bytes.len() {
            is_char_boundary_iff_not_is_continuation_byte(bytes, at as int);
        } else {
            is_char_boundary_start_end_of_seq(bytes);
        }
    }
    let (head, _) = version.split_at(at);
    head
}

/// The name of the table that holds this library in the host: a fixed
/// prefix, then the major version.
pub fn global_table_name(major: &str) -> (name: String)
    ensures
        name@ == "goobie_mysql_"@ + major@,
{
    String::from_str("goobie_mysql_").concat(major)
}

} // verus!
