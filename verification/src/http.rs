//! Transport: fetching the release document and planning downloads.
//!
//! The two network touches — one GET returning text, one parse of the
//! release document — are trusted wrappers over reqwest and serde_json.
//! Everything that can be decided from their results alone (when a
//! request is refused outright, which status codes count as failure,
//! what each error says) is verified here.

use vstd::prelude::*;

verus! {

use crate::text::{
    str_chars,
    chars_to_string,
    concat_chars,
    concat_strs,
    trim_spaces,
    trim_spec,
    u64_dec_chars,
    dec_spec,
};
use crate::sys::{parent_spec, parent_dir, path_exists, path_is_dir};

/// What went wrong with a transport operation: the service was
/// unreachable, the local filesystem refused, the body made no sense,
/// or the service answered with a failing status.
#[derive(Debug)]
pub enum HttpError {
    Network(String),
    FileSystem(String),
    InvalidResponse(String),
    RequestFailed(u16, String),
}

/// The one-line description of a transport error.
pub open spec fn http_error_text_spec(e: HttpError) -> Seq<char> {
    match e {
        HttpError::Network(m) => "Network error: "@ + m@,
        HttpError::FileSystem(m) => "File system error: "@ + m@,
        HttpError::InvalidResponse(m) => "Invalid response: "@ + m@,
        HttpError::RequestFailed(code, m) => "HTTP request failed with status code "@ + dec_spec(
            code as int,
        ) + ": "@ + m@,
    }
}

impl HttpError {
    /// The one-line description of this error.
    pub fn to_string(&self) -> (r: String)
        ensures
            r@ == http_error_text_spec(*self),
    {
        match self {
            HttpError::Network(m) => concat_strs("Network error: ", m.as_str()),
            HttpError::FileSystem(m) => concat_strs("File system error: ", m.as_str()),
            HttpError::InvalidResponse(m) => concat_strs("Invalid response: ", m.as_str()),
            HttpError::RequestFailed(code, m) => {
                let head = str_chars("HTTP request failed with status code ");
                let digits = u64_dec_chars(*code as u64);
                let with_code = concat_chars(&head, &digits);
                let with_sep = concat_chars(&with_code, &str_chars(": "));
                let full = concat_chars(&with_sep, &str_chars(m.as_str()));
                chars_to_string(&full)
            }
        }
    }
}

/// One downloadable artifact of a published release: its file name and
/// the address it is served from.
pub struct ReleaseAsset {
    pub name: String,
    pub browser_download_url: String,
}

/// The part of a published release this tool reads: the list of its
/// downloadable artifacts.
pub struct ReleaseInfo {
    pub assets: Vec<ReleaseAsset>,
}

/// Relies on reqwest's blocking client: one GET of `url` with a 30 s
/// total timeout, a 10 s connect timeout and a fixed user agent, giving
/// the status code and the body text.  Every failure on the way comes
/// back as a `Network` error; the client is built afresh at each call
/// with that same configuration.
#[verifier::external_body]
fn http_get_text(url: &str) -> (r: Result<(u16, String), HttpError>)
    ensures
        r is Err ==> r->Err_0 is Network,
{
    let client = reqwest::blocking::Client::builder()
        .timeout(std::time::Duration::from_secs(30))
        .connect_timeout(std::time::Duration::from_secs(10))
        .user_agent("X-RUST-APP")
        .build()
        .map_err(|e| HttpError::Network(e.to_string()))?;
    let resp = client.get(url).send().map_err(|e| HttpError::Network(e.to_string()))?;
    let status = resp.status().as_u16();
    let body = resp.text().map_err(|e| HttpError::Network(e.to_string()))?;
    Ok((status, body))
}

/// Relies on serde_json: reads the release document and picks out of
/// each entry of its `assets` array the `name` and the
/// `browser_download_url`, refusing a document in any other shape.
#[verifier::external_body]
fn parse_release_text(body: &str) -> (r: Option<ReleaseInfo>) {
    let v: serde_json::Value = serde_json::from_str(body).ok()?;
    let assets = v.get("assets")?.as_array()?;
    let mut out: Vec<ReleaseAsset> = Vec::new();
    for a in assets {
        out.push(ReleaseAsset {
            name: a.get("name")?.as_str()?.to_owned(),
            browser_download_url: a.get("browser_download_url")?.as_str()?.to_owned(),
        });
    }
    Some(ReleaseInfo { assets: out })
}

/// The release document behind `url`.  A blank address is refused
/// before any request is made; a failing status becomes
/// `RequestFailed` with that status; a body that does not parse
/// becomes `InvalidResponse`; an unreachable service stays `Network`.
pub fn fetch_release_info(url: &str) -> (r: Result<ReleaseInfo, HttpError>)
    ensures
        trim_spec(url@).len() == 0 ==> match r {
            Err(HttpError::InvalidResponse(m)) => m@ == "URL cannot be empty"@,
            _ => false,
        },
        match r {
            Err(HttpError::RequestFailed(code, m)) => !(200 <= code < 300) && m@
                == "Failed to fetch JSON from "@ + url@,
            _ => true,
        },
        match r {
            Err(HttpError::InvalidResponse(m)) => (trim_spec(url@).len() == 0 && m@
                == "URL cannot be empty"@) || m@ == "Failed to parse the release document"@,
            Err(HttpError::FileSystem(m)) => false,
            _ => true,
        },
{
    let t = trim_spaces(&str_chars(url));
    if t.len() == 0 {
        return Err(HttpError::InvalidResponse(("URL cannot be empty").to_owned()));
    }
    match http_get_text(url) {
        Err(e) => Err(e),
        Ok((status, body)) => {
            if !(200 <= status && status < 300) {
                Err(
                    HttpError::RequestFailed(
                        status,
                        concat_strs("Failed to fetch JSON from ", url),
                    ),
                )
            } else {
                match parse_release_text(body.as_str()) {
                    Some(info) => Ok(info),
                    None => Err(
                        HttpError::InvalidResponse(
                            ("Failed to parse the release document").to_owned(),
                        ),
                    ),
                }
            }
        }
    }
}

/// A download ready to be carried out: fetch `url` into the fresh file
/// at `path`, after creating `create_parent` if it is named.
pub struct DownloadStep {
    pub url: String,
    pub path: String,
    pub create_parent: Option<String>,
}

/// The plan for downloading `url` into `output_filepath`, or the error
/// that rules it out before any byte moves: a blank address, an empty
/// output path, or something already on disk at the output path (a
/// download never overwrites).
pub fn download_plan(url: &str, output_filepath: &str) -> (r: Result<DownloadStep, HttpError>)
    ensures
        match r {
            Ok(step) => trim_spec(url@).len() > 0 && output_filepath@.len() > 0 && step.url@
                == url@ && step.path@ == output_filepath@ && match step.create_parent {
                Some(p) => p@ == parent_spec(output_filepath@) && p@.len() > 0,
                None => true,
            },
            Err(HttpError::InvalidResponse(m)) => trim_spec(url@).len() == 0 && m@
                == "URL cannot be empty"@,
            Err(HttpError::FileSystem(m)) => (output_filepath@.len() == 0 && m@
                == "Output file path cannot be empty"@) || m@
                == "File or directory already exists: "@ + output_filepath@,
            _ => false,
        },
        trim_spec(url@).len() == 0 ==> r is Err,
        trim_spec(url@).len() > 0 && output_filepath@.len() == 0 ==> r is Err,
{
    let t = trim_spaces(&str_chars(url));
    if t.len() == 0 {
        return Err(HttpError::InvalidResponse(("URL cannot be empty").to_owned()));
    }
    if output_filepath.is_empty() {
        return Err(HttpError::FileSystem(("Output file path cannot be empty").to_owned()));
    }
    if path_exists(output_filepath) {
        return Err(
            HttpError::FileSystem(
                concat_strs("File or directory already exists: ", output_filepath),
            ),
        );
    }
    let parent = parent_dir(output_filepath);
    let create_parent = if !parent.as_str().is_empty() && !path_is_dir(parent.as_str()) {
        Some(parent)
    } else {
        None
    };
    Ok(DownloadStep { url: url.to_owned(), path: output_filepath.to_owned(), create_parent })
}

} // verus!
