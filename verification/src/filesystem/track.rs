//! The track file of a user: an XML document in the GPS exchange format
//! that holds one named track with one segment.

use vstd::prelude::*;

verus! {

/// The XML declaration and the opening of the root element up to the value
/// of its `creator` attribute.
pub open spec fn track_head() -> Seq<char> {
    "<?xml version=\"1.0\" encoding=\"UTF-8\"?>\n<gpx\n\tversion=\"1.1\"\n\tcreator=\""@
}

/// A track document with the given creator, name and description and the
/// given content of its one segment. The three texts and the segment are put
/// in as they are: they must not hold markup of their own.
pub open spec fn track_document(
    creator: Seq<char>,
    name: Seq<char>,
    description: Seq<char>,
    segment: Seq<char>,
) -> Seq<char> {
    track_head() + creator + "\">\n\n<trk>\n\t<name>"@ + name + "</name>\n\t<desc>"@ + description
        + "</desc>\n\t<trkseg>\n"@ + segment + "\n\t</trkseg>\n</trk>\n</gpx>"@
}

/// The document written for a new user: a track without points.
pub open spec fn empty_track_text() -> Seq<char> {
    track_document(
        "Broodkruimel"@,
        "Breadcrumb"@,
        "Broodkruimel location data"@,
        Seq::empty(),
    )
}

/// The content of the track file of a new user.
pub fn empty_track() -> (text: String)
    ensures
        text@ == empty_track_text(),
{
    let mut text = String::from_str(
        "<?xml version=\"1.0\" encoding=\"UTF-8\"?>\n<gpx\n\tversion=\"1.1\"\n\tcreator=\"",
    );
    text.append("Broodkruimel");
    text.append("\">\n\n<trk>\n\t<name>");
    text.append("Breadcrumb");
    text.append("</name>\n\t<desc>");
    text.append("Broodkruimel location data");
    text.append("</desc>\n\t<trkseg>\n");
    text.append("\n\t</trkseg>\n</trk>\n</gpx>");
    assert(text@ =~= empty_track_text());
    text
}

} // verus!
