//! The two transport libraries whose errors are classified: what is read from
//! an error of libgit2, and what libcurl's bindings say of an error code.
//!
//! Nothing in this file is proved of the libraries themselves. Each function
//! marked `external_body` states, at most, what the library's source shows.

use crate::error::{Failure, Kind};
use vstd::prelude::*;

verus! {

/// `git2::Error`: an error of libgit2, carried as a value of which nothing is
/// known.
#[verifier::external_type_specification]
#[verifier::external_body]
pub struct ExGitError(git2::Error);

/// `curl::Error`: an error of libcurl, carried as a value of which nothing is
/// known.
#[verifier::external_type_specification]
#[verifier::external_body]
pub struct ExCurlError(curl::Error);

/// libgit2's number for the error class of operating-system errors.
pub const GIT_ERROR_OS: u32 = 2;

/// libgit2's number for the error class of compression errors.
pub const GIT_ERROR_ZLIB: u32 = 5;

/// libgit2's number for the error class of network errors.
pub const GIT_ERROR_NET: u32 = 12;

/// libgit2's number for the error class of HTTP errors.
pub const GIT_ERROR_HTTP: u32 = 34;

/// libgit2's error code for a server certificate that is not trusted.
pub const GIT_ECERTIFICATE: i32 = -17;

/// libcurl's code for a proxy whose name does not resolve.
pub const CURLE_COULDNT_RESOLVE_PROXY: u32 = 5;

/// libcurl's code for a host whose name does not resolve.
pub const CURLE_COULDNT_RESOLVE_HOST: u32 = 6;

/// libcurl's code for a connection that could not be made.
pub const CURLE_COULDNT_CONNECT: u32 = 7;

/// libcurl's code for an error in the HTTP/2 framing layer.
pub const CURLE_HTTP2: u32 = 16;

/// libcurl's code for a transfer that ended before all of it had come.
pub const CURLE_PARTIAL_FILE: u32 = 18;

/// libcurl's code for an operation that ran out of time.
pub const CURLE_OPERATION_TIMEDOUT: u32 = 28;

/// libcurl's code for a TLS handshake that failed.
pub const CURLE_SSL_CONNECT_ERROR: u32 = 35;

/// libcurl's code for a failure to send.
pub const CURLE_SEND_ERROR: u32 = 55;

/// libcurl's code for a failure to receive.
pub const CURLE_RECV_ERROR: u32 = 56;

/// libcurl's code for an error in one HTTP/2 stream.
pub const CURLE_HTTP2_STREAM: u32 = 92;

/// `git2::Error::raw_class`: the number of the error's class. Nothing is
/// claimed of it.
#[verifier::external_body]
fn git_raw_class(err: &git2::Error) -> (class: u32) {
    err.raw_class() as u32
}

/// `git2::Error::raw_code`: the number of the error's code. Nothing is
/// claimed of it.
#[verifier::external_body]
fn git_raw_code(err: &git2::Error) -> (code: i32) {
    err.raw_code() as i32
}

/// The error as `git2::Error` displays it. Nothing is claimed of the text.
#[verifier::external_body]
fn git_text(err: &git2::Error) -> (text: String) {
    err.to_string()
}

/// `curl::Error::code`: libcurl's number for the error. Nothing is claimed
/// of it.
#[verifier::external_body]
fn curl_raw_code(err: &curl::Error) -> (code: u32) {
    err.code() as u32
}

/// The error as `curl::Error` displays it. Nothing is claimed of the text.
#[verifier::external_body]
fn curl_text(err: &curl::Error) -> (text: String) {
    err.to_string()
}

/// `curl::Error::is_couldnt_resolve_proxy` on the error that
/// `curl::Error::new` makes of `code`. The method compares the code it was
/// made of with CURLE_COULDNT_RESOLVE_PROXY, and that is all the contract says.
#[verifier::external_body]
pub(crate) fn is_couldnt_resolve_proxy(code: u32) -> (yes: bool)
    ensures
        yes == (code == CURLE_COULDNT_RESOLVE_PROXY),
{
    curl::Error::new(code as curl_sys::CURLcode).is_couldnt_resolve_proxy()
}

/// `curl::Error::is_couldnt_resolve_host` on the error that
/// `curl::Error::new` makes of `code`. The method compares the code it was
/// made of with CURLE_COULDNT_RESOLVE_HOST, and that is all the contract says.
#[verifier::external_body]
pub(crate) fn is_couldnt_resolve_host(code: u32) -> (yes: bool)
    ensures
        yes == (code == CURLE_COULDNT_RESOLVE_HOST),
{
    curl::Error::new(code as curl_sys::CURLcode).is_couldnt_resolve_host()
}

/// `curl::Error::is_couldnt_connect` on the error that `curl::Error::new`
/// makes of `code`. The method compares the code it was made of with
/// CURLE_COULDNT_CONNECT, and that is all the contract says.
#[verifier::external_body]
pub(crate) fn is_couldnt_connect(code: u32) -> (yes: bool)
    ensures
        yes == (code == CURLE_COULDNT_CONNECT),
{
    curl::Error::new(code as curl_sys::CURLcode).is_couldnt_connect()
}

/// `curl::Error::is_http2_error` on the error that `curl::Error::new` makes
/// of `code`. The method compares the code it was made of with CURLE_HTTP2,
/// and that is all the contract says.
#[verifier::external_body]
pub(crate) fn is_http2_error(code: u32) -> (yes: bool)
    ensures
        yes == (code == CURLE_HTTP2),
{
    curl::Error::new(code as curl_sys::CURLcode).is_http2_error()
}

/// `curl::Error::is_partial_file` on the error that `curl::Error::new` makes
/// of `code`. The method compares the code it was made of with
/// CURLE_PARTIAL_FILE, and that is all the contract says.
#[verifier::external_body]
pub(crate) fn is_partial_file(code: u32) -> (yes: bool)
    ensures
        yes == (code == CURLE_PARTIAL_FILE),
{
    curl::Error::new(code as curl_sys::CURLcode).is_partial_file()
}

/// `curl::Error::is_operation_timedout` on the error that `curl::Error::new`
/// makes of `code`. The method compares the code it was made of with
/// CURLE_OPERATION_TIMEDOUT, and that is all the contract says.
#[verifier::external_body]
pub(crate) fn is_operation_timedout(code: u32) -> (yes: bool)
    ensures
        yes == (code == CURLE_OPERATION_TIMEDOUT),
{
    curl::Error::new(code as curl_sys::CURLcode).is_operation_timedout()
}

/// `curl::Error::is_ssl_connect_error` on the error that `curl::Error::new`
/// makes of `code`. The method compares the code it was made of with
/// CURLE_SSL_CONNECT_ERROR, and that is all the contract says.
#[verifier::external_body]
pub(crate) fn is_ssl_connect_error(code: u32) -> (yes: bool)
    ensures
        yes == (code == CURLE_SSL_CONNECT_ERROR),
{
    curl::Error::new(code as curl_sys::CURLcode).is_ssl_connect_error()
}

/// `curl::Error::is_send_error` on the error that `curl::Error::new` makes
/// of `code`. The method compares the code it was made of with
/// CURLE_SEND_ERROR, and that is all the contract says.
#[verifier::external_body]
pub(crate) fn is_send_error(code: u32) -> (yes: bool)
    ensures
        yes == (code == CURLE_SEND_ERROR),
{
    curl::Error::new(code as curl_sys::CURLcode).is_send_error()
}

/// `curl::Error::is_recv_error` on the error that `curl::Error::new` makes
/// of `code`. The method compares the code it was made of with
/// CURLE_RECV_ERROR, and that is all the contract says.
#[verifier::external_body]
pub(crate) fn is_recv_error(code: u32) -> (yes: bool)
    ensures
        yes == (code == CURLE_RECV_ERROR),
{
    curl::Error::new(code as curl_sys::CURLcode).is_recv_error()
}

/// `curl::Error::is_http2_stream_error` on the error that `curl::Error::new`
/// makes of `code`. The method compares the code it was made of with
/// CURLE_HTTP2_STREAM, and that is all the contract says.
#[verifier::external_body]
pub(crate) fn is_http2_stream_error(code: u32) -> (yes: bool)
    ensures
        yes == (code == CURLE_HTTP2_STREAM),
{
    curl::Error::new(code as curl_sys::CURLcode).is_http2_stream_error()
}

impl Failure {
    /// The failure that stands for an error of libgit2: one cause, of kind
    /// [`Kind::Git`], with the class and the code that the library reports
    /// and the text that it displays.
    pub fn from_git(err: &git2::Error) -> (made: Failure)
        ensures
            made@.len() == 1,
            made@[0].kind is Git,
    {
        let class: u32 = git_raw_class(err);
        let code: i32 = git_raw_code(err);
        let text: String = git_text(err);
        Failure::new(Kind::Git { class, code }, text.as_str())
    }

    /// The failure that stands for an error of libcurl: one cause, of kind
    /// [`Kind::Curl`], with the code that the library reports and the text
    /// that it displays.
    pub fn from_curl(err: &curl::Error) -> (made: Failure)
        ensures
            made@.len() == 1,
            made@[0].kind is Curl,
    {
        let code: u32 = curl_raw_code(err);
        let text: String = curl_text(err);
        Failure::new(Kind::Curl { code }, text.as_str())
    }
}

} // verus!
