//! Protocol-aware banner recognition.
//!
//! A port selects a probe. A probe is what to send, how much to read, and a
//! test that turns the bytes read into a service tag and a banner. The caller
//! owns the connection: it performs each exchange and hands the bytes back.

use crate::text::{
    append, append_str, decimal, decimal_chars, decode_lossy, from_chars, has_prefix, lowercase,
    replace_char, replaced, remove_char, split, split_chars, starts_with, subrange, to_chars,
    to_lowercase, trim, trim_chars, utf8_lossy, views, without,
};
use vstd::prelude::*;
use vstd::string::StringSliceAdditionalSpecFns;

verus! {

/// The time allowed for each read or write of a probe, in milliseconds.
pub const PROBE_TIMEOUT_MS: u64 = 5000;

/// The most bytes read for a probe that expects text or a short reply.
pub const PROBE_READ_LEN: usize = 256;

/// The most bytes read for the HTTP probe.
pub const HTTP_READ_LEN: usize = 512;

/// The most bytes read for the plain banner grab.
pub const SIMPLE_READ_LEN: usize = 1024;

/// A minimal TLS ClientHello: a handshake record with TLS 1.2 version fields,
/// 32 zero random bytes, no session id, the cipher suite 0x0035 and null
/// compression.
pub const TLS_CLIENT_HELLO: [u8; 50] = [
    0x16, 0x03, 0x01, 0x00, 0x2a, 0x01, 0x00, 0x00, 0x26, 0x03, 0x03, 0x00, 0x00, 0x00, 0x00, 0x00,
    0x00, 0x00, 0x00, 0x00, 0x00, 0x00, 0x00, 0x00, 0x00, 0x00, 0x00, 0x00, 0x00, 0x00, 0x00, 0x00,
    0x00, 0x00, 0x00, 0x00, 0x00, 0x00, 0x00, 0x00, 0x00, 0x00, 0x00, 0x00, 0x00, 0x02, 0x00, 0x35,
    0x01, 0x00,
];

/// A `version.bind` CHAOS TXT query of 30 bytes behind its two-byte length.
pub const DNS_VERSION_QUERY: [u8; 32] = [
    0x00, 0x1e, 0x12, 0x34, 0x00, 0x00, 0x00, 0x01, 0x00, 0x00, 0x00, 0x00, 0x00, 0x00, 0x07, 0x76,
    0x65, 0x72, 0x73, 0x69, 0x6f, 0x6e, 0x04, 0x62, 0x69, 0x6e, 0x64, 0x00, 0x00, 0x10, 0x00, 0x03,
];

/// An X.224 Connection Request with an RDP negotiation request.
pub const RDP_CONNECTION_REQUEST: [u8; 19] = [
    0x03, 0x00, 0x00, 0x13, 0x0e, 0xe0, 0x00, 0x00, 0x00, 0x00, 0x00, 0x01, 0x00, 0x08, 0x00, 0x00,
    0x00, 0x00, 0x00,
];

/// The PostgreSQL SSLRequest message.
pub const POSTGRES_SSL_REQUEST: [u8; 8] = [0x00, 0x00, 0x00, 0x08, 0x04, 0xd2, 0x16, 0x2f];

/// A TDS Pre-Login packet.
pub const TDS_PRELOGIN: [u8; 45] = [
    0x12, 0x01, 0x00, 0x2f, 0x00, 0x00, 0x01, 0x00, 0x00, 0x00, 0x15, 0x00, 0x06, 0x01, 0x00, 0x1b,
    0x00, 0x01, 0x02, 0x00, 0x1c, 0x00, 0x01, 0x03, 0x00, 0x1d, 0x00, 0x00, 0xff, 0x09, 0x00, 0x00,
    0x00, 0x00, 0x00, 0x00, 0x00, 0x00, 0x01, 0x00, 0xb8, 0x0d, 0x00, 0x00, 0x01,
];

/// A NetBIOS Session Request.
pub const NETBIOS_SESSION_REQUEST: [u8; 4] = [0x81, 0x00, 0x00, 0x44];

/// The request of the HTTP probe.
pub const HTTP_PROBE_REQUEST: &'static str =
    "GET / HTTP/1.1\r\nHost: target\r\nUser-Agent: NullScan/1.0\r\nConnection: close\r\n\r\n";

/// The request that the plain banner grab sends to web ports.
pub const HTTP_SIMPLE_REQUEST: &'static str = "GET / HTTP/1.1\r\nHost: \r\n\r\n";

/// The protocol exchanges by which a service is recognised.
#[derive(Debug, Clone, Copy, PartialEq, Eq, Structural, Hash)]
pub enum ProbeKind {
    Ssh,
    Tls,
    Http,
    Ftp,
    Smtp,
    Pop3,
    Imap,
    Dns,
    Rdp,
    PostgreSql,
    MySql,
    MsSql,
    Smb,
    Generic,
}

/// Why no banner was obtained.
#[derive(Debug, Clone, Copy, PartialEq, Eq, Structural, Hash)]
pub enum BannerError {
    /// The probe of this port got no reply, or one that it does not recognise.
    ProbeFailed(u16),
    /// The plain grab read nothing that could serve as a banner.
    NoBanner,
}

/// What a successful probe found.
#[derive(Debug)]
pub struct ProbeResult {
    pub service: String,
    pub banner: String,
}

/// One exchange on the connection: send `payload` unless it is empty, then
/// read once, at most `read_len` bytes; each step within `timeout_ms`.
#[derive(Debug)]
pub struct Exchange {
    pub payload: Vec<u8>,
    pub read_len: usize,
    pub timeout_ms: u64,
}

/// What to do next in order to grab a banner.
#[derive(Debug)]
pub enum GrabStep {
    /// The banner.
    Done(String),
    /// The probe failed: perform this exchange and evaluate it with
    /// `simple_banner_grab`.
    Fallback(Exchange),
}

/// Grabs banners by protocol-aware probes.
#[derive(Debug, Clone, Copy)]
pub struct BannerGrabber {
    timeout_ms: u64,
}

/// The probe that a port is given.
pub open spec fn probe_kind(port: u16) -> ProbeKind {
    if port == 22 {
        ProbeKind::Ssh
    } else if port == 443 || port == 993 || port == 995 || port == 8443 {
        ProbeKind::Tls
    } else if port == 80 || port == 8080 || port == 8000 || port == 3000 {
        ProbeKind::Http
    } else if port == 21 {
        ProbeKind::Ftp
    } else if port == 25 || port == 587 || port == 465 {
        ProbeKind::Smtp
    } else if port == 110 {
        ProbeKind::Pop3
    } else if port == 143 {
        ProbeKind::Imap
    } else if port == 53 {
        ProbeKind::Dns
    } else if port == 3389 {
        ProbeKind::Rdp
    } else if port == 5432 {
        ProbeKind::PostgreSql
    } else if port == 3306 {
        ProbeKind::MySql
    } else if port == 1433 {
        ProbeKind::MsSql
    } else if port == 139 || port == 445 {
        ProbeKind::Smb
    } else {
        ProbeKind::Generic
    }
}

/// The bytes that a probe sends first; none for a protocol whose server speaks
/// first.
pub open spec fn probe_payload(kind: ProbeKind) -> Seq<u8> {
    match kind {
        ProbeKind::Tls => TLS_CLIENT_HELLO@,
        ProbeKind::Http => HTTP_PROBE_REQUEST.spec_bytes(),
        ProbeKind::Dns => DNS_VERSION_QUERY@,
        ProbeKind::Rdp => RDP_CONNECTION_REQUEST@,
        ProbeKind::PostgreSql => POSTGRES_SSL_REQUEST@,
        ProbeKind::MsSql => TDS_PRELOGIN@,
        ProbeKind::Smb => NETBIOS_SESSION_REQUEST@,
        _ => Seq::empty(),
    }
}

/// The most bytes that a probe reads.
pub open spec fn probe_read_len(kind: ProbeKind) -> usize {
    if kind == ProbeKind::Http {
        HTTP_READ_LEN
    } else {
        PROBE_READ_LEN
    }
}

/// The request that the plain banner grab sends to a port, if any.
pub open spec fn simple_probe(port: u16) -> Option<Seq<char>> {
    if port == 80 || port == 443 || port == 8080 || port == 8443 {
        Some(HTTP_SIMPLE_REQUEST@)
    } else {
        None
    }
}

/// `line` without a carriage return at its end.
pub open spec fn strip_cr(line: Seq<char>) -> Seq<char> {
    if line.len() > 0 && line.last() == '\r' {
        line.drop_last()
    } else {
        line
    }
}

/// The lines of a text: it is cut behind every line feed, a carriage return
/// before the line feed goes with it, and what follows the last line feed is
/// a line if it is not empty.
pub open spec fn lines(text: Seq<char>) -> Seq<Seq<char>> {
    let pieces = split(text, '\n');
    let ended = pieces.drop_last().map_values(|l: Seq<char>| strip_cr(l));
    if pieces.last().len() > 0 {
        ended.push(pieces.last())
    } else {
        ended
    }
}

/// The first line of a text; empty if the text is.
pub open spec fn first_line(text: Seq<char>) -> Seq<char> {
    if lines(text).len() > 0 {
        lines(text)[0]
    } else {
        Seq::empty()
    }
}

/// The first of `lines` whose lower-case form in `lowered` begins with
/// `server:`; empty if there is none.
pub open spec fn server_line(lines: Seq<Seq<char>>, lowered: Seq<Seq<char>>) -> Seq<char>
    decreases lines.len(),
{
    if lines.len() == 0 || lowered.len() == 0 {
        Seq::empty()
    } else if starts_with(lowered[0], "server:"@) {
        lines[0]
    } else {
        server_line(lines.drop_first(), lowered.drop_first())
    }
}

/// The banner of a text protocol's greeting: its first line, trimmed, if the
/// text begins with the protocol's signature.
pub open spec fn greeting_banner(text: Seq<char>, signature: Seq<char>) -> Option<Seq<char>> {
    if starts_with(text, signature) {
        Some(trim(first_line(text)))
    } else {
        None
    }
}

/// The banner of an HTTP response: the status line, followed by the first
/// `Server` header if there is one, both trimmed.
pub open spec fn http_banner(text: Seq<char>) -> Option<Seq<char>> {
    if starts_with(text, "HTTP/"@) {
        let status = trim(first_line(text));
        let server = trim(
            server_line(lines(text), lines(text).map_values(|l: Seq<char>| lowercase(l))),
        );
        if server.len() > 0 {
            Some(status + " "@ + server)
        } else {
            Some(status)
        }
    } else {
        None
    }
}

/// The offset of the first zero byte of `bytes`, or their number if none is zero.
pub open spec fn zero_offset(bytes: Seq<u8>) -> int
    decreases bytes.len(),
{
    if bytes.len() == 0 || bytes[0] == 0 {
        0
    } else {
        1 + zero_offset(bytes.drop_first())
    }
}

/// The version bytes of a MySQL handshake: from byte 5 up to the first zero
/// byte, at most 20 of them.
pub open spec fn mysql_version_bytes(response: Seq<u8>) -> Seq<u8> {
    let rest = response.skip(5);
    let n = if zero_offset(rest) < 20 {
        zero_offset(rest)
    } else {
        20
    };
    rest.take(n)
}

/// The banner of a reply that no probe claims: the text trimmed, its carriage
/// returns and line feeds turned into spaces; none if that is empty.
pub open spec fn generic_banner(response: Seq<u8>) -> Option<Seq<char>> {
    let text = replaced(replaced(trim(utf8_lossy(response)), '\r', ' '), '\n', ' ');
    if response.len() > 0 && text.len() > 0 {
        Some(text)
    } else {
        None
    }
}

/// The banner of the plain grab: the text trimmed, without carriage returns,
/// its line feeds turned into spaces; none if that is empty.
pub open spec fn simple_banner(response: Seq<u8>) -> Option<Seq<char>> {
    let text = replaced(without(trim(utf8_lossy(response)), '\r'), '\n', ' ');
    if response.len() > 0 && text.len() > 0 {
        Some(text)
    } else {
        None
    }
}

/// The service tag and the banner that a probe reads from a reply, if it
/// recognises the reply.
pub open spec fn probe_reading(kind: ProbeKind, port: u16, response: Seq<u8>) -> Option<
    (Seq<char>, Seq<char>),
> {
    match kind {
        ProbeKind::Ssh => tagged("SSH"@, greeting_banner(utf8_lossy(response), "SSH-"@)),
        ProbeKind::Ftp => tagged("FTP"@, greeting_banner(utf8_lossy(response), "220"@)),
        ProbeKind::Smtp => tagged("SMTP"@, greeting_banner(utf8_lossy(response), "220"@)),
        ProbeKind::Pop3 => tagged("POP3"@, greeting_banner(utf8_lossy(response), "+OK"@)),
        ProbeKind::Imap => tagged("IMAP"@, greeting_banner(utf8_lossy(response), "* OK"@)),
        ProbeKind::Http => tagged("HTTP"@, http_banner(utf8_lossy(response))),
        ProbeKind::Tls => if response.len() >= 5 && response[0] == 0x16 {
            Some(
                (
                    "TLS/SSL"@,
                    "TLS handshake successful (version: "@ + decimal(response[1] as nat) + "."@
                        + decimal(response[2] as nat) + ")"@,
                ),
            )
        } else {
            None
        },
        ProbeKind::Dns => if response.len() >= 12 && response[2] & 0x80 != 0 {
            Some(("DNS"@, "DNS server responding"@))
        } else {
            None
        },
        ProbeKind::Rdp => if response.len() >= 4 && response[0] == 0x03 && response[1] == 0x00 {
            Some(("RDP"@, "Remote Desktop Protocol"@))
        } else {
            None
        },
        ProbeKind::PostgreSql => if response.len() >= 1 && (response[0] == 0x53 || response[0]
            == 0x4e) {
            Some(("PostgreSQL"@, "PostgreSQL database"@))
        } else {
            None
        },
        ProbeKind::MySql => if response.len() >= 5 && response[4] == 0x0a {
            Some(("MySQL"@, "MySQL "@ + utf8_lossy(mysql_version_bytes(response))))
        } else {
            None
        },
        ProbeKind::MsSql => if response.len() >= 8 && response[0] == 0x04 {
            Some(("MSSQL"@, "Microsoft SQL Server"@))
        } else {
            None
        },
        ProbeKind::Smb => if response.len() >= 4 && (response[0] == 0x82 || response[0] == 0x83) {
            Some(("SMB/NetBIOS"@, "SMB/CIFS file sharing"@))
        } else {
            None
        },
        ProbeKind::Generic => tagged("Unknown:"@ + decimal(port as nat), generic_banner(response)),
    }
}

/// A banner with its service tag.
pub open spec fn tagged(service: Seq<char>, banner: Option<Seq<char>>) -> Option<
    (Seq<char>, Seq<char>),
> {
    match banner {
        Some(b) => Some((service, b)),
        None => None,
    }
}

/// What the probe of a port makes of the outcome of its exchange; a read that
/// failed or timed out is no reply.
pub open spec fn probe_outcome(port: u16, response: Option<Seq<u8>>) -> Option<
    (Seq<char>, Seq<char>),
> {
    match response {
        Some(bytes) => probe_reading(probe_kind(port), port, bytes),
        None => None,
    }
}

/// The line that reports a probe's finding: the service tag, ` - `, the banner.
pub open spec fn probe_line(found: (Seq<char>, Seq<char>)) -> Seq<char> {
    found.0 + " - "@ + found.1
}

impl ProbeResult {
    /// The service tag and the banner.
    pub open spec fn reading(&self) -> (Seq<char>, Seq<char>) {
        (self.service@, self.banner@)
    }
}

impl Clone for ProbeResult {
    fn clone(&self) -> (r: Self)
        ensures
            r.reading() == self.reading(),
    {
        ProbeResult { service: self.service.clone(), banner: self.banner.clone() }
    }
}

/// A copy of the bytes of `bytes`.
fn bytes_of<const N: usize>(bytes: &[u8; N]) -> (r: Vec<u8>)
    ensures
        r@ == bytes@,
{
    let mut out: Vec<u8> = Vec::new();
    let mut i: usize = 0;
    while i < N
        invariant
            i <= N,
            out@ == bytes@.take(i as int),
        decreases N - i,
    {
        out.push(bytes[i]);
        assert(out@ =~= bytes@.take(i + 1));
        i += 1;
    }
    assert(bytes@.take(N as int) =~= bytes@);
    out
}

/// The probe that a port is given.
pub fn probe_for_port(port: u16) -> (r: ProbeKind)
    ensures
        r == probe_kind(port),
{
    if port == 22 {
        ProbeKind::Ssh
    } else if port == 443 || port == 993 || port == 995 || port == 8443 {
        ProbeKind::Tls
    } else if port == 80 || port == 8080 || port == 8000 || port == 3000 {
        ProbeKind::Http
    } else if port == 21 {
        ProbeKind::Ftp
    } else if port == 25 || port == 587 || port == 465 {
        ProbeKind::Smtp
    } else if port == 110 {
        ProbeKind::Pop3
    } else if port == 143 {
        ProbeKind::Imap
    } else if port == 53 {
        ProbeKind::Dns
    } else if port == 3389 {
        ProbeKind::Rdp
    } else if port == 5432 {
        ProbeKind::PostgreSql
    } else if port == 3306 {
        ProbeKind::MySql
    } else if port == 1433 {
        ProbeKind::MsSql
    } else if port == 139 || port == 445 {
        ProbeKind::Smb
    } else {
        ProbeKind::Generic
    }
}

/// The request that the plain banner grab sends to a port: an HTTP request
/// for the web ports, none for the others.
pub fn get_probe_for_port(port: u16) -> (r: Option<&'static str>)
    ensures
        r.is_some() == simple_probe(port).is_some(),
        r matches Some(s) ==> Some(s@) == simple_probe(port),
{
    if port == 80 || port == 443 || port == 8080 || port == 8443 {
        Some(HTTP_SIMPLE_REQUEST)
    } else {
        None
    }
}

/// The lines of `text`.
pub fn lines_of(text: &Vec<char>) -> (r: Vec<Vec<char>>)
    ensures
        views(r@) == lines(text@),
{
    let mut pieces = split_chars(text, '\n');
    let ghost all = views(pieces@);
    let last = pieces.pop().unwrap();
    assert(views(pieces@) =~= all.drop_last());
    assert(last@ == all.last());
    let ghost ended = all.drop_last().map_values(|l: Seq<char>| strip_cr(l));
    let mut out: Vec<Vec<char>> = Vec::new();
    let mut i: usize = 0;
    while i < pieces.len()
        invariant
            i <= pieces.len(),
            views(pieces@) == all.drop_last(),
            ended == all.drop_last().map_values(|l: Seq<char>| strip_cr(l)),
            views(out@) == ended.take(i as int),
        decreases pieces.len() - i,
    {
        let piece = &pieces[i];
        let ghost before = out@;
        assert(views(pieces@)[i as int] == piece@);
        let line = if piece.len() > 0 && piece[piece.len() - 1] == '\r' {
            subrange(piece, 0, piece.len() - 1)
        } else {
            subrange(piece, 0, piece.len())
        };
        assert(line@ =~= strip_cr(piece@));
        out.push(line);
        assert(views(out@) =~= views(before).push(line@));
        assert(ended.take(i as int).push(ended[i as int]) =~= ended.take(i + 1));
        i += 1;
    }
    assert(ended.take(pieces.len() as int) =~= ended);
    if last.len() > 0 {
        let ghost before = out@;
        out.push(last);
        assert(views(out@) =~= views(before).push(last@));
    }
    out
}

/// The first line of `text`; empty if the text is.
pub fn first_line_of(text: &Vec<char>) -> (r: Vec<char>)
    ensures
        r@ == first_line(text@),
{
    let all = lines_of(text);
    if all.len() > 0 {
        assert(views(all@)[0] == all@[0]@);
        subrange(&all[0], 0, all[0].len())
    } else {
        Vec::new()
    }
}

/// The first of `lines` whose lower-case form in `lowered` begins with
/// `server:`; empty if there is none.
pub fn find_server_line(lines: &Vec<Vec<char>>, lowered: &Vec<Vec<char>>) -> (r: Vec<char>)
    ensures
        r@ == server_line(views(lines@), views(lowered@)),
{
    let key = to_chars("server:");
    let ghost ls = views(lines@);
    let ghost lo = views(lowered@);
    let mut i: usize = 0;
    assert(ls.skip(0) =~= ls);
    assert(lo.skip(0) =~= lo);
    while i < lines.len() && i < lowered.len()
        invariant
            i <= lines.len(),
            i <= lowered.len(),
            key@ == "server:"@,
            ls == views(lines@),
            lo == views(lowered@),
            server_line(ls, lo) == server_line(ls.skip(i as int), lo.skip(i as int)),
        decreases lines.len() - i,
    {
        assert(lo.skip(i as int)[0] == lowered@[i as int]@);
        assert(ls.skip(i as int)[0] == lines@[i as int]@);
        if has_prefix(&lowered[i], &key) {
            return subrange(&lines[i], 0, lines[i].len());
        }
        assert(ls.skip(i as int).drop_first() =~= ls.skip(i + 1));
        assert(lo.skip(i as int).drop_first() =~= lo.skip(i + 1));
        i += 1;
    }
    Vec::new()
}

/// The banner of a text protocol's greeting.
pub fn read_greeting(text: &Vec<char>, signature: &str) -> (r: Option<Vec<char>>)
    ensures
        r.is_some() == greeting_banner(text@, signature@).is_some(),
        r matches Some(b) ==> Some(b@) == greeting_banner(text@, signature@),
{
    let sig = to_chars(signature);
    if has_prefix(text, &sig) {
        Some(trim_chars(&first_line_of(text)))
    } else {
        None
    }
}

/// The banner of an HTTP response.
pub fn read_http(text: &Vec<char>) -> (r: Option<Vec<char>>)
    ensures
        r.is_some() == http_banner(text@).is_some(),
        r matches Some(b) ==> Some(b@) == http_banner(text@),
{
    let sig = to_chars("HTTP/");
    if !has_prefix(text, &sig) {
        return None;
    }
    let all = lines_of(text);
    let ghost wanted = lines(text@).map_values(|l: Seq<char>| lowercase(l));
    let mut lowered: Vec<Vec<char>> = Vec::new();
    let mut i: usize = 0;
    while i < all.len()
        invariant
            i <= all.len(),
            views(all@) == lines(text@),
            wanted == lines(text@).map_values(|l: Seq<char>| lowercase(l)),
            views(lowered@) == wanted.take(i as int),
        decreases all.len() - i,
    {
        let ghost before = lowered@;
        assert(views(all@)[i as int] == all@[i as int]@);
        let line = from_chars(&all[i]);
        let low = to_chars(to_lowercase(line.as_str()).as_str());
        lowered.push(low);
        assert(views(lowered@) =~= views(before).push(low@));
        assert(wanted.take(i as int).push(wanted[i as int]) =~= wanted.take(i + 1));
        i += 1;
    }
    assert(wanted.take(all.len() as int) =~= wanted);
    let status = trim_chars(&first_line_of(text));
    let server = trim_chars(&find_server_line(&all, &lowered));
    let mut banner = status;
    if server.len() > 0 {
        append_str(&mut banner, " ");
        append(&mut banner, &server);
    }
    Some(banner)
}

/// The offset of the first zero byte of `bytes[from..]`, or the number of
/// those bytes if none is zero.
fn find_zero(bytes: &Vec<u8>, from: usize) -> (r: usize)
    requires
        from <= bytes.len(),
    ensures
        r == zero_offset(bytes@.skip(from as int)),
        from + r <= bytes.len(),
{
    let mut n: usize = 0;
    let ghost rest = bytes@.skip(from as int);
    assert(rest.skip(0) =~= rest);
    while from + n < bytes.len() && bytes[from + n] != 0
        invariant
            from + n <= bytes.len(),
            rest == bytes@.skip(from as int),
            zero_offset(rest) == n + zero_offset(rest.skip(n as int)),
        decreases bytes.len() - from - n,
    {
        assert(rest.skip(n as int)[0] == bytes@[from + n]);
        assert(rest.skip(n as int).drop_first() =~= rest.skip(n + 1));
        n += 1;
    }
    if from + n < bytes.len() {
        assert(rest.skip(n as int)[0] == bytes@[from + n]);
    }
    n
}

/// A copy of `bytes[from..to]`.
fn byte_range(bytes: &Vec<u8>, from: usize, to: usize) -> (r: Vec<u8>)
    requires
        from <= to <= bytes.len(),
    ensures
        r@ == bytes@.subrange(from as int, to as int),
{
    let mut out: Vec<u8> = Vec::new();
    let mut i: usize = from;
    while i < to
        invariant
            from <= i <= to <= bytes.len(),
            out@ == bytes@.subrange(from as int, i as int),
        decreases to - i,
    {
        out.push(bytes[i]);
        assert(out@ =~= bytes@.subrange(from as int, i + 1));
        i += 1;
    }
    out
}

fn result_of(service: Vec<char>, banner: Vec<char>) -> (r: ProbeResult)
    ensures
        r.reading() == (service@, banner@),
{
    ProbeResult { service: from_chars(&service), banner: from_chars(&banner) }
}

fn constant_result(service: &str, banner: &str) -> (r: ProbeResult)
    ensures
        r.reading() == (service@, banner@),
{
    ProbeResult { service: service.to_string(), banner: banner.to_string() }
}

fn tagged_result(service: &str, banner: Option<Vec<char>>) -> (r: Option<ProbeResult>)
    ensures
        r.is_some() == banner.is_some(),
        r matches Some(p) ==> p.reading() == (service@, banner.unwrap()@),
{
    match banner {
        Some(b) => Some(result_of(to_chars(service), b)),
        None => None,
    }
}

/// What a probe reads from a reply.
pub fn read_probe(kind: ProbeKind, port: u16, response: &Vec<u8>) -> (r: Option<ProbeResult>)
    ensures
        r.is_some() == probe_reading(kind, port, response@).is_some(),
        r matches Some(p) ==> Some(p.reading()) == probe_reading(kind, port, response@),
{
    match kind {
        ProbeKind::Ssh => {
            let text = to_chars(decode_lossy(response).as_str());
            tagged_result("SSH", read_greeting(&text, "SSH-"))
        },
        ProbeKind::Ftp => {
            let text = to_chars(decode_lossy(response).as_str());
            tagged_result("FTP", read_greeting(&text, "220"))
        },
        ProbeKind::Smtp => {
            let text = to_chars(decode_lossy(response).as_str());
            tagged_result("SMTP", read_greeting(&text, "220"))
        },
        ProbeKind::Pop3 => {
            let text = to_chars(decode_lossy(response).as_str());
            tagged_result("POP3", read_greeting(&text, "+OK"))
        },
        ProbeKind::Imap => {
            let text = to_chars(decode_lossy(response).as_str());
            tagged_result("IMAP", read_greeting(&text, "* OK"))
        },
        ProbeKind::Http => {
            let text = to_chars(decode_lossy(response).as_str());
            tagged_result("HTTP", read_http(&text))
        },
        ProbeKind::Tls => {
            if response.len() >= 5 && response[0] == 0x16 {
                let mut banner = to_chars("TLS handshake successful (version: ");
                let major = decimal_chars(response[1] as u64);
                append(&mut banner, &major);
                append_str(&mut banner, ".");
                let minor = decimal_chars(response[2] as u64);
                append(&mut banner, &minor);
                append_str(&mut banner, ")");
                Some(result_of(to_chars("TLS/SSL"), banner))
            } else {
                None
            }
        },
        ProbeKind::Dns => {
            if response.len() >= 12 && response[2] & 0x80 != 0 {
                Some(constant_result("DNS", "DNS server responding"))
            } else {
                None
            }
        },
        ProbeKind::Rdp => {
            if response.len() >= 4 && response[0] == 0x03 && response[1] == 0x00 {
                Some(constant_result("RDP", "Remote Desktop Protocol"))
            } else {
                None
            }
        },
        ProbeKind::PostgreSql => {
            if response.len() >= 1 && (response[0] == 0x53 || response[0] == 0x4e) {
                Some(constant_result("PostgreSQL", "PostgreSQL database"))
            } else {
                None
            }
        },
        ProbeKind::MySql => {
            if response.len() >= 5 && response[4] == 0x0a {
                let found = find_zero(response, 5);
                let n: usize = if found < 20 {
                    found
                } else {
                    20
                };
                let version = byte_range(response, 5, 5 + n);
                assert(version@ =~= mysql_version_bytes(response@));
                let mut banner = to_chars("MySQL ");
                let text = to_chars(decode_lossy(&version).as_str());
                append(&mut banner, &text);
                Some(result_of(to_chars("MySQL"), banner))
            } else {
                None
            }
        },
        ProbeKind::MsSql => {
            if response.len() >= 8 && response[0] == 0x04 {
                Some(constant_result("MSSQL", "Microsoft SQL Server"))
            } else {
                None
            }
        },
        ProbeKind::Smb => {
            if response.len() >= 4 && (response[0] == 0x82 || response[0] == 0x83) {
                Some(constant_result("SMB/NetBIOS", "SMB/CIFS file sharing"))
            } else {
                None
            }
        },
        ProbeKind::Generic => {
            if response.len() == 0 {
                return None;
            }
            let text = trim_chars(&to_chars(decode_lossy(response).as_str()));
            let banner = replace_char(&replace_char(&text, '\r', ' '), '\n', ' ');
            if banner.len() > 0 {
                let mut service = to_chars("Unknown:");
                let number = decimal_chars(port as u64);
                append(&mut service, &number);
                Some(result_of(service, banner))
            } else {
                None
            }
        },
    }
}

impl BannerGrabber {
    pub fn new() -> (r: Self)
        ensures
            r.timeout_ms() == PROBE_TIMEOUT_MS,
    {
        BannerGrabber { timeout_ms: PROBE_TIMEOUT_MS }
    }

    /// The time allowed for each read or write, in milliseconds.
    pub closed spec fn timeout_ms(&self) -> u64 {
        self.timeout_ms
    }

    /// The time allowed for each read or write, in milliseconds.
    pub fn timeout(&self) -> (r: u64)
        ensures
            r == self.timeout_ms(),
    {
        self.timeout_ms
    }

    /// The exchange by which the service on `port` is probed.
    pub fn probe_request(&self, port: u16) -> (r: Exchange)
        ensures
            r.payload@ == probe_payload(probe_kind(port)),
            r.read_len == probe_read_len(probe_kind(port)),
            r.timeout_ms == self.timeout_ms(),
    {
        let kind = probe_for_port(port);
        let payload = match kind {
            ProbeKind::Tls => bytes_of(&TLS_CLIENT_HELLO),
            ProbeKind::Http => HTTP_PROBE_REQUEST.as_bytes_vec(),
            ProbeKind::Dns => bytes_of(&DNS_VERSION_QUERY),
            ProbeKind::Rdp => bytes_of(&RDP_CONNECTION_REQUEST),
            ProbeKind::PostgreSql => bytes_of(&POSTGRES_SSL_REQUEST),
            ProbeKind::MsSql => bytes_of(&TDS_PRELOGIN),
            ProbeKind::Smb => bytes_of(&NETBIOS_SESSION_REQUEST),
            _ => Vec::new(),
        };
        let read_len = if kind == ProbeKind::Http {
            HTTP_READ_LEN
        } else {
            PROBE_READ_LEN
        };
        Exchange { payload, read_len, timeout_ms: self.timeout_ms }
    }

    /// The exchange of the plain banner grab on `port`.
    pub fn simple_request(&self, port: u16) -> (r: Exchange)
        ensures
            r.payload@ == match simple_probe(port) {
                Some(_) => HTTP_SIMPLE_REQUEST.spec_bytes(),
                None => Seq::empty(),
            },
            r.read_len == SIMPLE_READ_LEN,
            r.timeout_ms == self.timeout_ms(),
    {
        let payload = match get_probe_for_port(port) {
            Some(request) => {
                assert(request@ == HTTP_SIMPLE_REQUEST@);
                HTTP_SIMPLE_REQUEST.as_bytes_vec()
            },
            None => Vec::new(),
        };
        Exchange { payload, read_len: SIMPLE_READ_LEN, timeout_ms: self.timeout_ms }
    }

    /// Evaluates the probe of `port`. `response` holds the bytes that the
    /// probe's exchange read, or nothing if the read failed or timed out.
    pub fn probe_service(&self, port: u16, response: &Option<Vec<u8>>) -> (r: Result<
        ProbeResult,
        BannerError,
    >)
        ensures
            r.is_ok() == probe_outcome(port, response.deep_view()).is_some(),
            r matches Ok(p) ==> Some(p.reading()) == probe_outcome(port, response.deep_view()),
            r matches Err(e) ==> e == BannerError::ProbeFailed(port),
    {
        match response {
            Some(bytes) => {
                assert(bytes.deep_view() =~= bytes@);
                match read_probe(probe_for_port(port), port, bytes) {
                    Some(p) => Ok(p),
                    None => Err(BannerError::ProbeFailed(port)),
                }
            },
            None => Err(BannerError::ProbeFailed(port)),
        }
    }

    /// Evaluates the plain banner grab. `response` holds the bytes that its
    /// exchange read, or nothing if the read failed or timed out.
    pub fn simple_banner_grab(&self, port: u16, response: &Option<Vec<u8>>) -> (r: Result<
        String,
        BannerError,
    >)
        ensures
            r matches Ok(banner) ==> response.is_some() && Some(banner@) == simple_banner(
                response.unwrap()@,
            ),
            r matches Err(e) ==> e == BannerError::NoBanner && (response.is_none() || simple_banner(
                response.unwrap()@,
            ).is_none()),
    {
        match response {
            Some(bytes) => {
                if bytes.len() == 0 {
                    return Err(BannerError::NoBanner);
                }
                let text = trim_chars(&to_chars(decode_lossy(bytes).as_str()));
                let banner = replace_char(&remove_char(&text, '\r'), '\n', ' ');
                if banner.len() > 0 {
                    Ok(from_chars(&banner))
                } else {
                    Err(BannerError::NoBanner)
                }
            },
            None => Err(BannerError::NoBanner),
        }
    }

    /// Evaluates the probe of `port` as the first step of grabbing its banner:
    /// a recognised reply gives the banner line, anything else leads to the
    /// plain grab.
    pub fn grab_banner(&self, port: u16, response: &Option<Vec<u8>>) -> (r: GrabStep)
        ensures
            match r {
                GrabStep::Done(line) => probe_outcome(port, response.deep_view()).is_some()
                    && line@ == probe_line(probe_outcome(port, response.deep_view()).unwrap()),
                GrabStep::Fallback(exchange) => probe_outcome(port, response.deep_view()).is_none()
                    && exchange.payload@ == (match simple_probe(port) {
                    Some(_) => HTTP_SIMPLE_REQUEST.spec_bytes(),
                    None => Seq::empty(),
                }) && exchange.read_len == SIMPLE_READ_LEN && exchange.timeout_ms
                    == self.timeout_ms(),
            },
    {
        match self.probe_service(port, response) {
            Ok(found) => {
                let mut line = to_chars(found.service.as_str());
                append_str(&mut line, " - ");
                append_str(&mut line, found.banner.as_str());
                GrabStep::Done(from_chars(&line))
            },
            Err(_) => GrabStep::Fallback(self.simple_request(port)),
        }
    }
}

} // verus!
