use vstd::prelude::*;

verus! {

/// Descriptive text about a track from the metadata provider.
#[derive(Debug)]
pub struct DetailResponse {
    pub track_info: String,
    pub track_summary: String,
    pub track_description: String,
}

/// Client settings of the metadata provider. The key is a secret, so the
/// type has no `Debug`.
#[derive(Clone)]
pub struct LastFM {
    key: String,
}

/// Why track details could not be had.
#[derive(Debug, Clone, Copy, PartialEq, Eq, Structural)]
pub enum MetadataError {
    /// The provider's answer is not a JSON document.
    Malformed,
}

/// The text is one JSON document.
pub uninterp spec fn is_json(text: Seq<char>) -> bool;

/// The JSON string that a JSON pointer designates in a document, `None`
/// when the text is no document, nothing is there, or it is not a string.
pub uninterp spec fn json_string_at(text: Seq<char>, pointer: Seq<char>) -> Option<Seq<char>>;

pub open spec fn name_pointer() -> Seq<char> {
    "/track/name"@
}

pub open spec fn summary_pointer() -> Seq<char> {
    "/track/wiki/summary"@
}

pub open spec fn content_pointer() -> Seq<char> {
    "/track/wiki/content"@
}

pub open spec fn seq_or(o: Option<Seq<char>>, placeholder: Seq<char>) -> Seq<char> {
    match o {
        Some(s) => s,
        None => placeholder,
    }
}

pub open spec fn track_placeholder() -> Seq<char> {
    "Track not found."@
}

pub open spec fn summary_placeholder() -> Seq<char> {
    "Summary not found."@
}

pub open spec fn description_placeholder() -> Seq<char> {
    "Description not found."@
}

pub open spec fn text_or(o: Option<String>, placeholder: Seq<char>) -> Seq<char> {
    match o {
        Some(s) => s@,
        None => placeholder,
    }
}

/// The request URL for a track's details.
pub open spec fn details_url_text(key: Seq<char>, artist: Seq<char>, track: Seq<char>) -> Seq<char> {
    "http://ws.audioscrobbler.com/2.0/?method=track.getInfo&api_key="@ + key + "&artist="@ + artist
        + "&track="@ + track + "&format=json"@
}

/// Relies on serde_json::from_str, read as a `Value`, to tell whether the
/// text is a JSON document.
#[verifier::external_body]
fn parses_as_json(text: &str) -> (r: bool)
    ensures
        r == is_json(text@),
{
    serde_json::from_str::<serde_json::Value>(text).is_ok()
}

/// Relies on serde_json::from_str, read as a `Value`, then on
/// `Value::pointer` and `Value::as_str`: the string at `pointer`, `None`
/// for a text that is no document, a missing member, or another value.
#[verifier::external_body]
fn string_at(text: &str, pointer: &str) -> (r: Option<String>)
    ensures
        r is None <==> json_string_at(text@, pointer@) is None,
        r matches Some(s) ==> json_string_at(text@, pointer@) == Some(s@),
{
    let v = serde_json::from_str::<serde_json::Value>(text).ok()?;
    v.pointer(pointer).and_then(|x| x.as_str()).map(|x| x.to_string())
}

fn or_placeholder(o: Option<String>, placeholder: &str) -> (r: String)
    ensures
        r@ == text_or(o, placeholder@),
{
    match o {
        Some(s) => s,
        None => String::from_str(placeholder),
    }
}

/// Details from the three fields of a provider answer, each replaced by
/// its fixed placeholder when absent.
pub fn details_from_fields(
    name: Option<String>,
    summary: Option<String>,
    content: Option<String>,
) -> (r: DetailResponse)
    ensures
        r.track_info@ == text_or(name, track_placeholder()),
        r.track_summary@ == text_or(summary, summary_placeholder()),
        r.track_description@ == text_or(content, description_placeholder()),
{
    DetailResponse {
        track_info: or_placeholder(name, "Track not found."),
        track_summary: or_placeholder(summary, "Summary not found."),
        track_description: or_placeholder(content, "Description not found."),
    }
}

/// Reads `track.name`, `track.wiki.summary` and `track.wiki.content` from
/// a provider answer; a missing field gives its placeholder, and only an
/// answer that is not JSON is an error.
pub fn details_from_response(body: &str) -> (r: Result<DetailResponse, MetadataError>)
    ensures
        r is Ok <==> is_json(body@),
        r is Err ==> r == Err::<DetailResponse, MetadataError>(MetadataError::Malformed),
        r matches Ok(d) ==> {
            &&& d.track_info@ == seq_or(json_string_at(body@, name_pointer()), track_placeholder())
            &&& d.track_summary@ == seq_or(
                json_string_at(body@, summary_pointer()),
                summary_placeholder(),
            )
            &&& d.track_description@ == seq_or(
                json_string_at(body@, content_pointer()),
                description_placeholder(),
            )
        },
{
    if !parses_as_json(body) {
        return Err(MetadataError::Malformed);
    }
    let name = string_at(body, "/track/name");
    let summary = string_at(body, "/track/wiki/summary");
    let content = string_at(body, "/track/wiki/content");
    Ok(details_from_fields(name, summary, content))
}

impl LastFM {
    pub fn new(key: String) -> (r: LastFM)
        ensures
            r.key() == key@,
    {
        LastFM { key }
    }

    pub closed spec fn key(&self) -> Seq<char> {
        self.key@
    }

    /// The URL that asks the provider for a track's details.
    pub fn details_url(&self, artist: &str, track: &str) -> (r: String)
        ensures
            r@ == details_url_text(self.key(), artist@, track@),
    {
        let mut url = String::from_str("http://ws.audioscrobbler.com/2.0/?method=track.getInfo&api_key=");
        url.append(self.key.as_str());
        url.append("&artist=");
        url.append(artist);
        url.append("&track=");
        url.append(track);
        url.append("&format=json");
        url
    }
}

} // verus!
