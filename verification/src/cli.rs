//! Texts of the one-shot command-line commands.
use vstd::prelude::*;
use crate::text::{concat3, to_owned_string};

verus! {

/// "yes" or "no".
pub fn yn(b: bool) -> (r: &'static str)
    ensures
        r@ == (if b { "yes"@ } else { "no"@ }),
{
    if b { "yes" } else { "no" }
}

/// A track as the command line reports it: the quoted title and, when known, its artist
/// after a dash; "(unknown)" without a title.
pub open spec fn spec_format_track(title: Seq<char>, artist: Seq<char>) -> Seq<char> {
    if title.len() == 0 {
        "(unknown)"@
    } else if artist.len() == 0 {
        "\""@ + title + "\""@
    } else {
        "\""@ + title + "\" \u{2014} "@ + artist
    }
}

/// Formats a track for the command line.
pub fn format_track(title: &str, artist: &str) -> (r: String)
    ensures
        r@ == spec_format_track(title@, artist@),
{
    if title.unicode_len() == 0 {
        to_owned_string("(unknown)")
    } else if artist.unicode_len() == 0 {
        concat3("\"", title, "\"")
    } else {
        concat3("\"", title, "\" \u{2014} ").concat(artist)
    }
}

} // verus!
