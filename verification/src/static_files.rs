//! Serving the embedded front end: which file a path names, what kind of
//! content it is, and what to answer when it is missing.

use crate::text::ends_with;
use vstd::prelude::*;
use vstd::string::*;

verus! {

pub const ASSETS: &'static str = "assets/";

pub const INDEX: &'static str = "index.html";

pub const CACHE_FOREVER: &'static str = "public, max-age=31536000";

pub const NOT_FOUND_BODY: &'static str = "File not found";

pub const INVALID_UTF8: &'static str = "Invalid UTF-8";

pub const JAVASCRIPT: &'static str = "application/javascript";

pub const CSS: &'static str = "text/css";

pub const HTML: &'static str = "text/html; charset=utf-8";

pub const PNG: &'static str = "image/png";

pub const JPEG: &'static str = "image/jpeg";

pub const SVG: &'static str = "image/svg+xml";

pub const ICON: &'static str = "image/x-icon";

pub const BINARY: &'static str = "application/octet-stream";

pub const DOT_JS: &'static str = ".js";

pub const DOT_CSS: &'static str = ".css";

pub const DOT_HTML: &'static str = ".html";

pub const DOT_PNG: &'static str = ".png";

pub const DOT_JPG: &'static str = ".jpg";

pub const DOT_JPEG: &'static str = ".jpeg";

pub const DOT_SVG: &'static str = ".svg";

pub const DOT_ICO: &'static str = ".ico";

pub const STAND_IN_PAGE: &'static str = r#"
<!DOCTYPE html>
<html lang="zh-CN">
<head>
    <title>Nyamedia Bot</title>
    <meta charset="utf-8">
    <meta name="viewport" content="width=device-width, initial-scale=1.0">
    <style>
        body {
            font-family: -apple-system, BlinkMacSystemFont, 'Segoe UI', Roboto, sans-serif;
            display: flex;
            justify-content: center;
            align-items: center;
            min-height: 100vh;
            margin: 0;
            background-color: #f5f5f5;
        }
        .container {
            text-align: center;
            padding: 40px;
            background: white;
            border-radius: 12px;
            box-shadow: 0 4px 12px rgba(0,0,0,0.1);
            max-width: 500px;
        }
        h1 { color: #333; margin-bottom: 16px; }
        p { color: #666; margin-bottom: 12px; }
        a { color: #007aff; text-decoration: none; }
        a:hover { text-decoration: underline; }
    </style>
</head>
<body>
    <div class="container">
        <h1>Nyamedia Bot</h1>
        <p>前端文件未嵌入到二进制中。请确保编译时静态文件存在。</p>
        <p>API服务正在运行中。</p>
        <p><a href="/requests">查看媒体请求</a></p>
    </div>
</body>
</html>
        "#;

/// The content type of a file, by the ending of its path.
pub open spec fn content_type(path: Seq<char>) -> Seq<char> {
    if DOT_JS@.is_suffix_of(path) {
        JAVASCRIPT@
    } else if DOT_CSS@.is_suffix_of(path) {
        CSS@
    } else if DOT_HTML@.is_suffix_of(path) {
        HTML@
    } else if DOT_PNG@.is_suffix_of(path) {
        PNG@
    } else if DOT_JPG@.is_suffix_of(path) || DOT_JPEG@.is_suffix_of(path) {
        JPEG@
    } else if DOT_SVG@.is_suffix_of(path) {
        SVG@
    } else if DOT_ICO@.is_suffix_of(path) {
        ICON@
    } else {
        BINARY@
    }
}

/// Tells the content type of a file from the ending of its path.
pub fn get_content_type(path: &str) -> (r: &'static str)
    ensures
        r@ == content_type(path@),
{
    if ends_with(path, DOT_JS) {
        JAVASCRIPT
    } else if ends_with(path, DOT_CSS) {
        CSS
    } else if ends_with(path, DOT_HTML) {
        HTML
    } else if ends_with(path, DOT_PNG) {
        PNG
    } else if ends_with(path, DOT_JPG) || ends_with(path, DOT_JPEG) {
        JPEG
    } else if ends_with(path, DOT_SVG) {
        SVG
    } else if ends_with(path, DOT_ICO) {
        ICON
    } else {
        BINARY
    }
}

/// Where an asset lies among the embedded files.
pub fn asset_path(filename: &str) -> (r: String)
    ensures
        r@ == ASSETS@ + filename@,
{
    let mut out = String::from_str(ASSETS);
    out.append(filename);
    out
}

/// The answer to a request for a file.
#[derive(Clone, Debug, PartialEq, Eq)]
pub struct FileResponse {
    pub status: u16,
    pub content_type: Option<String>,
    pub cache_control: Option<String>,
    pub body: Vec<u8>,
}

/// How a request for an asset is answered: a file that exists is served
/// under the content type of its path and may be cached for a year; a file
/// that does not is reported missing.
pub fn serve_asset_direct(filename: &str, contents: Option<Vec<u8>>) -> (r: FileResponse)
    ensures
        match contents {
            Some(bytes) => {
                &&& r.status == 200
                &&& r.content_type matches Some(kind) && kind@ == content_type(ASSETS@ + filename@)
                &&& r.cache_control matches Some(rule) && rule@ == CACHE_FOREVER@
                &&& r.body@ == bytes@
            },
            None => {
                &&& r.status == 404
                &&& r.content_type is None
                &&& r.cache_control is None
                &&& r.body@ == NOT_FOUND_BODY.spec_bytes()
            },
        },
{
    match contents {
        Some(bytes) => {
            let path = asset_path(filename);
            FileResponse {
                status: 200,
                content_type: Some(String::from_str(get_content_type(path.as_str()))),
                cache_control: Some(String::from_str(CACHE_FOREVER)),
                body: bytes,
            }
        },
        None => FileResponse {
            status: 404,
            content_type: None,
            cache_control: None,
            body: NOT_FOUND_BODY.as_bytes_vec(),
        },
    }
}

/// What was found under the path of a page.
#[derive(Clone, Debug, PartialEq, Eq)]
pub enum Embedded {
    /// No such file is embedded.
    Missing,
    /// The file is embedded but is not text.
    NotText,
    /// The text of the file.
    Text(String),
}

/// The answer to a request for a page.
#[derive(Clone, Debug, PartialEq, Eq)]
pub struct PageResponse {
    pub status: u16,
    pub content_type: Option<String>,
    pub body: String,
}

/// How a request for a page is answered: the page when it is embedded as
/// text, an internal error when it is embedded but is not text, and a
/// stand-in page when it is not embedded at all.
pub fn serve_embedded_file(found: Embedded) -> (r: PageResponse)
    ensures
        match found {
            Embedded::Text(page) => r.status == 200 && r.body@ == page@ && (
            r.content_type matches Some(kind) && kind@ == HTML@),
            Embedded::NotText => r.status == 500 && r.body@ == INVALID_UTF8@ && r.content_type
                is None,
            Embedded::Missing => r.status == 200 && r.body@ == STAND_IN_PAGE@ && (
            r.content_type matches Some(kind) && kind@ == HTML@),
        },
{
    match found {
        Embedded::Text(page) => PageResponse {
            status: 200,
            content_type: Some(String::from_str(HTML)),
            body: page,
        },
        Embedded::NotText => PageResponse {
            status: 500,
            content_type: None,
            body: String::from_str(INVALID_UTF8),
        },
        Embedded::Missing => PageResponse {
            status: 200,
            content_type: Some(String::from_str(HTML)),
            body: String::from_str(STAND_IN_PAGE),
        },
    }
}

} // verus!
