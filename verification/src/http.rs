//! HTTP/3 requests and replies: what the server answers, and what the client
//! asks.

use vstd::prelude::*;
use vstd::string::StringSliceAdditionalSpecFns;

use crate::bytes::{
    decimal_digits, decimal_u64, format_u64, is_digit, parse_u64,
    reading_a_written_number_gives_it_back, same_bytes, written_digits_stand_for_the_number,
};

verus! {

/// The most stream data that a client allows a reply, in bytes.
pub const MAX_STREAM_DATA_CAP: u64 = 10_485_760;

/// A header: its name and its value.
#[derive(Debug)]
pub struct Header {
    pub name: Vec<u8>,
    pub value: Vec<u8>,
}

impl View for Header {
    type V = (Seq<u8>, Seq<u8>);

    open spec fn view(&self) -> (Seq<u8>, Seq<u8>) {
        (self.name@, self.value@)
    }
}

/// A list of headers, by what they hold.
pub open spec fn headers_view(headers: Seq<Header>) -> Seq<(Seq<u8>, Seq<u8>)> {
    headers.map_values(|h: Header| h@)
}

/// A header of a given name and value.
fn header(name: &str, value: &[u8]) -> (h: Header)
    ensures
        h@ == (name.spec_bytes(), value@),
{
    Header {
        name: vstd::slice::slice_to_vec(name.as_bytes()),
        value: vstd::slice::slice_to_vec(value),
    }
}

/// Whether a connection is one for HTTP/3, by the protocol negotiated for it.
pub fn is_http3(alpn: &[u8]) -> (yes: bool)
    ensures
        yes == (alpn@ == "h3".spec_bytes()),
{
    same_bytes(alpn, "h3".as_bytes())
}

/// The files that the server offers.
#[derive(Debug, Clone, Copy, PartialEq, Eq, Structural)]
pub enum SizedFile {
    Mb1,
    Mb10,
    Mb100,
    Gb1,
}

/// The path under which a file is requested.
pub open spec fn request_path(file: SizedFile) -> Seq<u8> {
    match file {
        SizedFile::Mb1 => "/1MB.bin".spec_bytes(),
        SizedFile::Mb10 => "/10MB.bin".spec_bytes(),
        SizedFile::Mb100 => "/100MB.bin".spec_bytes(),
        SizedFile::Gb1 => "/1GB.bin".spec_bytes(),
    }
}

impl SizedFile {
    /// Where the file is kept.
    pub fn disk_path(self) -> (path: &'static str)
        ensures
            path@ == match self {
                SizedFile::Mb1 => "/files/1MB.bin"@,
                SizedFile::Mb10 => "/files/10MB.bin"@,
                SizedFile::Mb100 => "/files/100MB.bin"@,
                SizedFile::Gb1 => "/files/1GB.bin"@,
            },
    {
        match self {
            SizedFile::Mb1 => "/files/1MB.bin",
            SizedFile::Mb10 => "/files/10MB.bin",
            SizedFile::Mb100 => "/files/100MB.bin",
            SizedFile::Gb1 => "/files/1GB.bin",
        }
    }
}

/// How a request is answered.
#[derive(Debug, Clone, Copy, PartialEq, Eq, Structural)]
pub enum Reply {
    /// Refused: the request is malformed, or asks for what is not there.
    BadRequest,
    /// Refused: only `GET` is served.
    MethodNotAllowed,
    /// The greeting.
    Greeting,
    /// A file.
    File(SizedFile),
}

/// The reply to a request, by its method, scheme and path. The method is
/// looked at first: one other than `GET` is not allowed, whatever else the
/// request says or lacks.
pub open spec fn reply_to(
    method: Option<Seq<u8>>,
    scheme: Option<Seq<u8>>,
    path: Option<Seq<u8>>,
) -> Reply {
    if method is Some && method->0 != "GET".spec_bytes() {
        Reply::MethodNotAllowed
    } else if method is None || path is None || scheme != Some("https".spec_bytes()) {
        Reply::BadRequest
    } else {
        reply_to_path(path->0)
    }
}

/// The reply to a well-formed request, by its path.
pub open spec fn reply_to_path(path: Seq<u8>) -> Reply {
    if path == "/".spec_bytes() {
        Reply::Greeting
    } else if path == request_path(SizedFile::Mb1) {
        Reply::File(SizedFile::Mb1)
    } else if path == request_path(SizedFile::Mb10) {
        Reply::File(SizedFile::Mb10)
    } else if path == request_path(SizedFile::Mb100) {
        Reply::File(SizedFile::Mb100)
    } else if path == request_path(SizedFile::Gb1) {
        Reply::File(SizedFile::Gb1)
    } else {
        Reply::BadRequest
    }
}

/// The value of a header, where it is there.
pub open spec fn value_view(value: Option<&[u8]>) -> Option<Seq<u8>> {
    match value {
        Some(v) => Some(v@),
        None => None,
    }
}

/// Decides the reply to a request from its `:method`, `:scheme` and `:path`.
pub fn route(method: Option<&[u8]>, scheme: Option<&[u8]>, path: Option<&[u8]>) -> (reply: Reply)
    ensures
        reply == reply_to(value_view(method), value_view(scheme), value_view(path)),
{
    match method {
        Some(m) => if !same_bytes(m, "GET".as_bytes()) {
            return Reply::MethodNotAllowed;
        },
        None => return Reply::BadRequest,
    }
    match (scheme, path) {
        (Some(s), Some(p)) => if same_bytes(s, "https".as_bytes()) {
            route_path(p)
        } else {
            Reply::BadRequest
        },
        _ => Reply::BadRequest,
    }
}

/// Decides the reply to a well-formed request from its path.
fn route_path(path: &[u8]) -> (reply: Reply)
    ensures
        reply == reply_to_path(path@),
{
    if same_bytes(path, "/".as_bytes()) {
        Reply::Greeting
    } else if same_bytes(path, "/1MB.bin".as_bytes()) {
        Reply::File(SizedFile::Mb1)
    } else if same_bytes(path, "/10MB.bin".as_bytes()) {
        Reply::File(SizedFile::Mb10)
    } else if same_bytes(path, "/100MB.bin".as_bytes()) {
        Reply::File(SizedFile::Mb100)
    } else if same_bytes(path, "/1GB.bin".as_bytes()) {
        Reply::File(SizedFile::Gb1)
    } else {
        Reply::BadRequest
    }
}

/// The status that a reply carries.
pub open spec fn status(reply: Reply) -> Seq<u8> {
    match reply {
        Reply::BadRequest => "400".spec_bytes(),
        Reply::MethodNotAllowed => "405".spec_bytes(),
        Reply::Greeting => "200".spec_bytes(),
        Reply::File(_) => "200".spec_bytes(),
    }
}

impl Reply {
    /// The headers of a reply that is no file.
    pub fn headers(self) -> (headers: Vec<Header>)
        requires
            !(self is File),
        ensures
            headers_view(headers@) == seq![(":status".spec_bytes(), status(self))],
    {
        let code = match self {
            Reply::BadRequest => "400",
            Reply::MethodNotAllowed => "405",
            _ => "200",
        };
        let mut headers: Vec<Header> = Vec::new();
        headers.push(header(":status", code.as_bytes()));
        proof {
            assert(headers_view(headers@) =~= seq![(":status".spec_bytes(), status(self))]);
        }
        headers
    }

    /// The data that follows the headers of a reply that is no file.
    pub fn data(self) -> (data: Option<&'static [u8]>)
        requires
            !(self is File),
        ensures
            value_view(data) == if self is Greeting {
                Some("hello world".spec_bytes())
            } else {
                None::<Seq<u8>>
            },
    {
        match self {
            Reply::Greeting => Some("hello world".as_bytes()),
            _ => None,
        }
    }
}

/// The headers of a file of a given length.
pub open spec fn headers_of_file(len: u64) -> Seq<(Seq<u8>, Seq<u8>)> {
    seq![
        (":status".spec_bytes(), "200".spec_bytes()),
        ("content-length".spec_bytes(), decimal_digits(len as nat)),
    ]
}

/// The headers that a file of a given length is sent with.
pub fn file_headers(len: u64) -> (headers: Vec<Header>)
    ensures
        headers_view(headers@) == headers_of_file(len),
{
    let text = format_u64(len);
    let mut headers: Vec<Header> = Vec::new();
    headers.push(header(":status", "200".as_bytes()));
    headers.push(header("content-length", text.as_slice()));
    proof {
        assert(headers_view(headers@) =~= headers_of_file(len));
    }
    headers
}

/// The headers of the client's request for a path on a host.
pub open spec fn headers_of_request(host: Seq<u8>, path: Seq<u8>) -> Seq<(Seq<u8>, Seq<u8>)> {
    seq![
        (":method".spec_bytes(), "GET".spec_bytes()),
        (":scheme".spec_bytes(), "https".spec_bytes()),
        (":authority".spec_bytes(), host),
        (":path".spec_bytes(), path),
        ("user-agent".spec_bytes(), "quiche-tokio".spec_bytes()),
    ]
}

/// The headers that the client requests a path on a host with.
pub fn request_headers(host: &str, path: &str) -> (headers: Vec<Header>)
    ensures
        headers_view(headers@) == headers_of_request(host.spec_bytes(), path.spec_bytes()),
{
    let mut headers: Vec<Header> = Vec::new();
    headers.push(header(":method", "GET".as_bytes()));
    headers.push(header(":scheme", "https".as_bytes()));
    headers.push(header(":authority", host.as_bytes()));
    headers.push(header(":path", path.as_bytes()));
    headers.push(header("user-agent", "quiche-tokio".as_bytes()));
    proof {
        assert(headers_view(headers@) =~= headers_of_request(host.spec_bytes(), path.spec_bytes()));
    }
    headers
}

/// The stream data to allow a reply of a given content length: as much as that,
/// but no more than the cap.
pub open spec fn data_allowed(content_length: u64) -> u64 {
    if content_length <= MAX_STREAM_DATA_CAP {
        content_length
    } else {
        MAX_STREAM_DATA_CAP
    }
}

/// The stream data to allow a reply, from its `content-length`; `None`, where
/// that header is not there or is no number, leaves the transport's default.
pub fn max_stream_data(content_length: Option<&[u8]>) -> (max_data: Option<u64>)
    ensures
        max_data == match value_view(content_length) {
            Some(value) => match decimal_u64(value) {
                Some(len) => Some(data_allowed(len)),
                None => None::<u64>,
            },
            None => None::<u64>,
        },
{
    match content_length {
        Some(value) => match parse_u64(value) {
            Some(len) => if len <= MAX_STREAM_DATA_CAP {
                Some(len)
            } else {
                Some(MAX_STREAM_DATA_CAP)
            },
            None => None,
        },
        None => None,
    }
}

/// A name stands once among headers, with this value.
pub open spec fn stands_once(
    headers: Seq<(Seq<u8>, Seq<u8>)>,
    name: Seq<u8>,
    value: Seq<u8>,
) -> bool {
    exists|i: int|
        {
            &&& 0 <= i < headers.len()
            &&& #[trigger] headers[i] == (name, value)
            &&& forall|j: int| 0 <= j < headers.len() && j != i ==> (#[trigger] headers[j]).0 != name
        }
}

/// The length of a literal and its first bytes tell the literals apart.
proof fn lemma_literals()
    ensures
        ":method".spec_bytes().len() == 7,
        ":scheme".spec_bytes().len() == 7,
        ":method".spec_bytes()[1] != ":scheme".spec_bytes()[1],
        ":authority".spec_bytes().len() == 10,
        ":authority".spec_bytes()[0] == 0x3a,
        ":path".spec_bytes().len() == 5,
        "user-agent".spec_bytes().len() == 10,
        "user-agent".spec_bytes()[0] == 0x75,
        ":status".spec_bytes().len() == 7,
        "content-length".spec_bytes().len() == 14,
        "/".spec_bytes().len() == 1,
        "/1MB.bin".spec_bytes().len() == 8,
        "/10MB.bin".spec_bytes().len() == 9,
        "/100MB.bin".spec_bytes().len() == 10,
        "/1GB.bin".spec_bytes().len() == 8,
        "/1MB.bin".spec_bytes()[2] != "/1GB.bin".spec_bytes()[2],
{
    broadcast use vstd::string::is_ascii_spec_bytes;

    reveal_strlit(":method");
    reveal_strlit(":scheme");
    reveal_strlit(":authority");
    reveal_strlit(":path");
    reveal_strlit("user-agent");
    reveal_strlit(":status");
    reveal_strlit("content-length");
    reveal_strlit("/");
    reveal_strlit("/1MB.bin");
    reveal_strlit("/10MB.bin");
    reveal_strlit("/100MB.bin");
    reveal_strlit("/1GB.bin");
    assert(vstd::string::is_ascii(":method"));
    assert(vstd::string::is_ascii(":scheme"));
    assert(vstd::string::is_ascii(":authority"));
    assert(vstd::string::is_ascii(":path"));
    assert(vstd::string::is_ascii("user-agent"));
    assert(vstd::string::is_ascii(":status"));
    assert(vstd::string::is_ascii("content-length"));
    assert(vstd::string::is_ascii("/"));
    assert(vstd::string::is_ascii("/1MB.bin"));
    assert(vstd::string::is_ascii("/10MB.bin"));
    assert(vstd::string::is_ascii("/100MB.bin"));
    assert(vstd::string::is_ascii("/1GB.bin"));
}

/// Each file is served under its own path, and under no other.
pub proof fn each_file_has_its_own_path(path: Seq<u8>, file: SizedFile)
    ensures
        reply_to_path(path) == Reply::File(file) <==> path == request_path(file),
{
    lemma_literals();
}

/// The client's request names its method, scheme and path once each, and the
/// server answers it by the path alone.
pub proof fn the_clients_request_is_well_formed(host: Seq<u8>, path: Seq<u8>)
    ensures
        stands_once(headers_of_request(host, path), ":method".spec_bytes(), "GET".spec_bytes()),
        stands_once(headers_of_request(host, path), ":scheme".spec_bytes(), "https".spec_bytes()),
        stands_once(headers_of_request(host, path), ":path".spec_bytes(), path),
        reply_to(Some("GET".spec_bytes()), Some("https".spec_bytes()), Some(path)) == reply_to_path(
            path,
        ),
{
    lemma_literals();
    let headers = headers_of_request(host, path);
    assert(headers[0] == (":method".spec_bytes(), "GET".spec_bytes()));
    assert(headers[1] == (":scheme".spec_bytes(), "https".spec_bytes()));
    assert(headers[3] == (":path".spec_bytes(), path));
}

/// A request that is refused is answered 405 exactly where it names a method
/// other than `GET`, and 400 otherwise; one that is not refused is answered 200.
pub proof fn a_refusal_tells_the_method(
    method: Option<Seq<u8>>,
    scheme: Option<Seq<u8>>,
    path: Option<Seq<u8>>,
)
    ensures
        ({
            let reply = reply_to(method, scheme, path);
            let served = reply is Greeting || reply is File;
            let other_method = method is Some && method->0 != "GET".spec_bytes();
            &&& served ==> status(reply) == "200".spec_bytes()
            &&& served ==> method == Some("GET".spec_bytes())
            &&& served ==> scheme == Some("https".spec_bytes())
            &&& !served && other_method ==> status(reply) == "405".spec_bytes()
            &&& !served && !other_method ==> status(reply) == "400".spec_bytes()
            &&& other_method ==> !served
        }),
{
}

/// A file is sent with the status of a reply that is served, once. The client
/// that gets it reads the file's length off the headers that it is sent with,
/// and allows that much stream data, up to the cap.
pub proof fn the_client_reads_the_files_length(len: u64)
    ensures
        headers_of_file(len).len() == 2,
        stands_once(headers_of_file(len), ":status".spec_bytes(), "200".spec_bytes()),
        stands_once(
            headers_of_file(len),
            "content-length".spec_bytes(),
            decimal_digits(len as nat),
        ),
        decimal_u64(decimal_digits(len as nat)) == Some(len),
        data_allowed(len) <= len,
        data_allowed(len) <= MAX_STREAM_DATA_CAP,
        data_allowed(len) == len || data_allowed(len) == MAX_STREAM_DATA_CAP,
{
    lemma_literals();
    reading_a_written_number_gives_it_back(len);
    let headers = headers_of_file(len);
    assert(headers[0] == (":status".spec_bytes(), "200".spec_bytes()));
    assert(headers[1] == ("content-length".spec_bytes(), decimal_digits(len as nat)));
}

/// A header of a list, among what the list holds.
proof fn lemma_header_at(headers: Seq<Header>, i: int)
    requires
        0 <= i < headers.len(),
    ensures
        headers_view(headers).len() == headers.len(),
        headers_view(headers)[i] == (headers[i].name@, headers[i].value@),
{
}

/// Of what `is_http3` answers: HTTP/3 is negotiated as `h3`, and as nothing else.
pub proof fn http3_goes_by_its_own_name(alpn: &[u8], yes: bool)
    requires
        call_ensures(is_http3, (alpn,), yes),
    ensures
        yes <==> alpn@.len() == 2 && alpn@[0] == 0x68 && alpn@[1] == 0x33,
{
    lemma_served_literals();
    if alpn@.len() == 2 && alpn@[0] == 0x68 && alpn@[1] == 0x33 {
        assert(alpn@ =~= "h3".spec_bytes());
    }
}

/// The bytes of literals.
proof fn lemma_served_literals()
    ensures
        "h3".spec_bytes() =~= seq![0x68u8, 0x33],
        "/files".spec_bytes() + "/1MB.bin".spec_bytes() =~= "/files/1MB.bin".spec_bytes(),
        "/files".spec_bytes() + "/10MB.bin".spec_bytes() =~= "/files/10MB.bin".spec_bytes(),
        "/files".spec_bytes() + "/100MB.bin".spec_bytes() =~= "/files/100MB.bin".spec_bytes(),
        "/files".spec_bytes() + "/1GB.bin".spec_bytes() =~= "/files/1GB.bin".spec_bytes(),
{
    broadcast use vstd::string::is_ascii_spec_bytes;

    reveal_strlit("h3");
    reveal_strlit("/files");
    reveal_strlit("/1MB.bin");
    reveal_strlit("/10MB.bin");
    reveal_strlit("/100MB.bin");
    reveal_strlit("/1GB.bin");
    reveal_strlit("/files/1MB.bin");
    reveal_strlit("/files/10MB.bin");
    reveal_strlit("/files/100MB.bin");
    reveal_strlit("/files/1GB.bin");
    assert(vstd::string::is_ascii("h3"));
    assert(vstd::string::is_ascii("/files"));
    assert(vstd::string::is_ascii("/1MB.bin"));
    assert(vstd::string::is_ascii("/10MB.bin"));
    assert(vstd::string::is_ascii("/100MB.bin"));
    assert(vstd::string::is_ascii("/1GB.bin"));
    assert(vstd::string::is_ascii("/files/1MB.bin"));
    assert(vstd::string::is_ascii("/files/10MB.bin"));
    assert(vstd::string::is_ascii("/files/100MB.bin"));
    assert(vstd::string::is_ascii("/files/1GB.bin"));
}

/// The greeting is served under `/`, and under no other path; a path that is
/// neither that nor the path of a file is refused.
pub proof fn the_greeting_has_its_own_path(path: Seq<u8>)
    ensures
        reply_to_path(path) is Greeting <==> path == "/".spec_bytes(),
        reply_to_path(path) is BadRequest <==> path != "/".spec_bytes() && forall|file: SizedFile|
            path != #[trigger] request_path(file),
        !(reply_to_path(path) is MethodNotAllowed),
{
    lemma_literals();
    if forall|file: SizedFile| path != #[trigger] request_path(file) {
        assert(path != request_path(SizedFile::Mb1));
        assert(path != request_path(SizedFile::Mb10));
        assert(path != request_path(SizedFile::Mb100));
        assert(path != request_path(SizedFile::Gb1));
    }
    if reply_to_path(path) is BadRequest {
        assert forall|file: SizedFile| path != #[trigger] request_path(file) by {
            each_file_has_its_own_path(path, file);
        }
    }
}

/// Of what `route` answers, for every request. A method other than `GET` is not
/// allowed. The greeting and each of the files are what a `GET` over `https` of
/// their own path is answered with, and nothing else is. All other requests are
/// bad ones.
pub proof fn a_request_is_answered_by_what_it_asks_for(
    method: Option<&[u8]>,
    scheme: Option<&[u8]>,
    path: Option<&[u8]>,
    reply: Reply,
)
    requires
        call_ensures(route, (method, scheme, path), reply),
    ensures
        ({
            let well_formed = {
                &&& method is Some && (method->0)@ == "GET".spec_bytes()
                &&& scheme is Some && (scheme->0)@ == "https".spec_bytes()
                &&& path is Some
            };
            let asked = (path->0)@;
            &&& reply is MethodNotAllowed <==> method is Some && (method->0)@ != "GET".spec_bytes()
            &&& reply is Greeting <==> well_formed && asked == "/".spec_bytes()
            &&& reply == Reply::File(SizedFile::Mb1) <==> well_formed && asked
                == "/1MB.bin".spec_bytes()
            &&& reply == Reply::File(SizedFile::Mb10) <==> well_formed && asked
                == "/10MB.bin".spec_bytes()
            &&& reply == Reply::File(SizedFile::Mb100) <==> well_formed && asked
                == "/100MB.bin".spec_bytes()
            &&& reply == Reply::File(SizedFile::Gb1) <==> well_formed && asked
                == "/1GB.bin".spec_bytes()
            &&& reply is BadRequest <==> {
                ||| method is None
                ||| {
                    &&& (method->0)@ == "GET".spec_bytes()
                    &&& {
                        ||| !well_formed
                        ||| {
                            &&& asked != "/".spec_bytes()
                            &&& asked != "/1MB.bin".spec_bytes()
                            &&& asked != "/10MB.bin".spec_bytes()
                            &&& asked != "/100MB.bin".spec_bytes()
                            &&& asked != "/1GB.bin".spec_bytes()
                        }
                    }
                }
            }
        }),
{
    lemma_literals();
}

/// A file that a request is answered with is kept under `/files`, by the very
/// path that was asked for.
pub proof fn a_file_is_kept_by_the_path_it_is_asked_for(
    method: Option<&[u8]>,
    scheme: Option<&[u8]>,
    path: Option<&[u8]>,
    file: SizedFile,
    kept: &'static str,
)
    requires
        call_ensures(route, (method, scheme, path), Reply::File(file)),
        call_ensures(SizedFile::disk_path, (file,), kept),
    ensures
        path is Some,
        kept.spec_bytes() == "/files".spec_bytes() + (path->0)@,
{
    lemma_literals();
    lemma_served_literals();
}

/// Of the headers and the data of a reply that is no file: the one header is the
/// status, 400 or 405 for a refusal and 200 for the greeting, and the greeting
/// alone has data.
pub proof fn a_reply_tells_its_status(
    reply: Reply,
    headers: Vec<Header>,
    data: Option<&'static [u8]>,
)
    requires
        !(reply is File),
        call_ensures(Reply::headers, (reply,), headers),
        call_ensures(Reply::data, (reply,), data),
    ensures
        headers@.len() == 1,
        headers@[0].name@ == ":status".spec_bytes(),
        reply is BadRequest ==> headers@[0].value@ == "400".spec_bytes() && data is None,
        reply is MethodNotAllowed ==> headers@[0].value@ == "405".spec_bytes() && data is None,
        reply is Greeting ==> {
            &&& headers@[0].value@ == "200".spec_bytes()
            &&& data is Some
            &&& (data->0)@ == "hello world".spec_bytes()
        },
{
    assert(headers_view(headers@).len() == headers@.len());
    lemma_header_at(headers@, 0);
}

/// Of the headers that `file_headers` makes, for every length: the status comes
/// first and is 200, and the content length, which is all that follows, reads as
/// the length of the file. A client that reads it allows as much stream data as
/// the file is long, but no more than 10 MiB.
pub proof fn a_file_is_sent_with_its_status_and_length(
    len: u64,
    headers: Vec<Header>,
    value: &[u8],
    number: Option<u64>,
    max_data: Option<u64>,
)
    requires
        call_ensures(file_headers, (len,), headers),
        value@ == headers@[1].value@,
        call_ensures(parse_u64, (value,), number),
        call_ensures(max_stream_data, (Some(value),), max_data),
    ensures
        headers@.len() == 2,
        headers@[0].name@ == ":status".spec_bytes(),
        headers@[0].value@ == "200".spec_bytes(),
        headers@[1].name@ == "content-length".spec_bytes(),
        headers@[1].name@ != ":status".spec_bytes(),
        number == Some(len),
        forall|i: int| 0 <= i < value@.len() ==> 0x30 <= #[trigger] value@[i] <= 0x39,
        value@.len() > 1 ==> value@[0] != 0x30,
        max_data is Some,
        len <= 10_485_760 ==> max_data->0 == len,
        len > 10_485_760 ==> max_data->0 == 10_485_760,
{
    lemma_literals();
    assert(headers_view(headers@).len() == headers@.len());
    lemma_header_at(headers@, 0);
    lemma_header_at(headers@, 1);
    reading_a_written_number_gives_it_back(len);
    written_digits_stand_for_the_number(len as nat);
    assert forall|i: int| 0 <= i < value@.len() implies 0x30 <= #[trigger] value@[i] <= 0x39 by {
        assert(is_digit(decimal_digits(len as nat)[i]));
    }
}

/// Of the headers that `request_headers` makes: five, each of its own name. They
/// ask to `GET` over `https` the path that was given, from the host that was
/// given.
pub proof fn the_client_asks_for_the_path_on_the_host(host: &str, path: &str, headers: Vec<Header>)
    requires
        call_ensures(request_headers, (host, path), headers),
    ensures
        headers@.len() == 5,
        headers@[0].name@ == ":method".spec_bytes(),
        headers@[0].value@ == "GET".spec_bytes(),
        headers@[1].name@ == ":scheme".spec_bytes(),
        headers@[1].value@ == "https".spec_bytes(),
        headers@[2].name@ == ":authority".spec_bytes(),
        headers@[2].value@ == host.spec_bytes(),
        headers@[3].name@ == ":path".spec_bytes(),
        headers@[3].value@ == path.spec_bytes(),
        headers@[4].name@ == "user-agent".spec_bytes(),
        headers@[4].value@ == "quiche-tokio".spec_bytes(),
        forall|i: int, j: int|
            0 <= i < j < 5 ==> (#[trigger] headers@[i]).name@ != (#[trigger] headers@[j]).name@,
{
    lemma_literals();
    assert(headers_view(headers@).len() == headers@.len());
    lemma_header_at(headers@, 0);
    lemma_header_at(headers@, 1);
    lemma_header_at(headers@, 2);
    lemma_header_at(headers@, 3);
    lemma_header_at(headers@, 4);
}

/// The server answers the client's request by the path in it alone: it is never
/// refused for its method or its scheme, and it is served where there is
/// something under that path.
pub proof fn the_clients_request_is_answered_by_its_path(
    host: &str,
    path: &str,
    headers: Vec<Header>,
    method: &[u8],
    scheme: &[u8],
    asked: &[u8],
    reply: Reply,
)
    requires
        call_ensures(request_headers, (host, path), headers),
        method@ == headers@[0].value@,
        scheme@ == headers@[1].value@,
        asked@ == headers@[3].value@,
        call_ensures(route, (Some(method), Some(scheme), Some(asked)), reply),
    ensures
        !(reply is MethodNotAllowed),
        reply is BadRequest <==> {
            &&& path.spec_bytes() != "/".spec_bytes()
            &&& path.spec_bytes() != "/1MB.bin".spec_bytes()
            &&& path.spec_bytes() != "/10MB.bin".spec_bytes()
            &&& path.spec_bytes() != "/100MB.bin".spec_bytes()
            &&& path.spec_bytes() != "/1GB.bin".spec_bytes()
        },
{
    the_client_asks_for_the_path_on_the_host(host, path, headers);
    a_request_is_answered_by_what_it_asks_for(Some(method), Some(scheme), Some(asked), reply);
}

/// Of what `max_stream_data` gives, beside the number that is read of the same
/// value: nothing where there is no number; and otherwise the content length
/// itself, where it is at most 10 MiB, and 10 MiB for every longer reply.
pub proof fn as_much_is_allowed_as_the_reply_is_long(
    content_length: Option<&[u8]>,
    max_data: Option<u64>,
    number: Option<u64>,
)
    requires
        call_ensures(max_stream_data, (content_length,), max_data),
        content_length is Some ==> call_ensures(parse_u64, (content_length->0,), number),
        content_length is None ==> number is None,
    ensures
        max_data is Some <==> number is Some,
        number is Some && number->0 <= 10_485_760 ==> max_data->0 == number->0,
        number is Some && number->0 > 10_485_760 ==> max_data->0 == 10_485_760,
{
}

} // verus!
