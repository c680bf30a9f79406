use nullscan::banner::{
    find_server_line, first_line_of, get_probe_for_port, lines_of, probe_for_port, read_greeting,
    read_http, read_probe, BannerError, BannerGrabber, GrabStep, ProbeKind,
};

fn chars(s: &str) -> Vec<char> {
    s.chars().collect()
}

fn text(v: &[char]) -> String {
    v.iter().collect()
}

fn reply(bytes: &[u8]) -> Option<Vec<u8>> {
    Some(bytes.to_vec())
}

fn probe(port: u16, bytes: &[u8]) -> Result<(String, String), BannerError> {
    BannerGrabber::new().probe_service(port, &reply(bytes)).map(|p| (p.service, p.banner))
}

fn found(service: &str, banner: &str) -> Result<(String, String), BannerError> {
    Ok((service.to_string(), banner.to_string()))
}

#[test]
fn ports_select_their_probes() {
    assert_eq!(probe_for_port(22), ProbeKind::Ssh);
    for port in [443, 993, 995, 8443] {
        assert_eq!(probe_for_port(port), ProbeKind::Tls);
    }
    for port in [80, 8080, 8000, 3000] {
        assert_eq!(probe_for_port(port), ProbeKind::Http);
    }
    assert_eq!(probe_for_port(21), ProbeKind::Ftp);
    for port in [25, 465, 587] {
        assert_eq!(probe_for_port(port), ProbeKind::Smtp);
    }
    assert_eq!(probe_for_port(110), ProbeKind::Pop3);
    assert_eq!(probe_for_port(143), ProbeKind::Imap);
    assert_eq!(probe_for_port(53), ProbeKind::Dns);
    assert_eq!(probe_for_port(3389), ProbeKind::Rdp);
    assert_eq!(probe_for_port(5432), ProbeKind::PostgreSql);
    assert_eq!(probe_for_port(3306), ProbeKind::MySql);
    assert_eq!(probe_for_port(1433), ProbeKind::MsSql);
    assert_eq!(probe_for_port(139), ProbeKind::Smb);
    assert_eq!(probe_for_port(445), ProbeKind::Smb);
    assert_eq!(probe_for_port(23), ProbeKind::Generic);
    assert_eq!(probe_for_port(0), ProbeKind::Generic);
}

#[test]
fn probe_requests() {
    let g = BannerGrabber::new();
    assert_eq!(g.timeout(), 5000);
    let ssh = g.probe_request(22);
    assert!(ssh.payload.is_empty());
    assert_eq!(ssh.read_len, 256);
    assert_eq!(ssh.timeout_ms, 5000);
    let tls = g.probe_request(443);
    assert_eq!(tls.payload.len(), 50);
    assert_eq!(&tls.payload[..11], &[0x16, 0x03, 0x01, 0x00, 0x2a, 0x01, 0x00, 0x00, 0x26, 0x03, 0x03]);
    assert!(tls.payload[11..43].iter().all(|b| *b == 0));
    assert_eq!(&tls.payload[43..], &[0x00, 0x00, 0x02, 0x00, 0x35, 0x01, 0x00]);
    let http = g.probe_request(8080);
    assert_eq!(
        http.payload,
        b"GET / HTTP/1.1\r\nHost: target\r\nUser-Agent: NullScan/1.0\r\nConnection: close\r\n\r\n".to_vec()
    );
    assert_eq!(http.read_len, 512);
    let dns = g.probe_request(53);
    assert_eq!(dns.payload.len(), 32);
    assert_eq!(&dns.payload[..2], &[0x00, 0x1e]);
    assert_eq!(&dns.payload[14..22], b"\x07version");
    assert_eq!(&dns.payload[22..27], b"\x04bind");
    assert_eq!(
        g.probe_request(3389).payload,
        vec![0x03, 0x00, 0x00, 0x13, 0x0e, 0xe0, 0, 0, 0, 0, 0, 0x01, 0x00, 0x08, 0x00, 0, 0, 0, 0]
    );
    assert_eq!(g.probe_request(5432).payload, vec![0x00, 0x00, 0x00, 0x08, 0x04, 0xd2, 0x16, 0x2f]);
    let tds = g.probe_request(1433);
    assert_eq!(
        tds.payload,
        vec![
            0x12, 0x01, 0x00, 0x2f, 0x00, 0x00, 0x01, 0x00, 0x00, 0x00, 0x15, 0x00, 0x06, 0x01, 0x00,
            0x1b, 0x00, 0x01, 0x02, 0x00, 0x1c, 0x00, 0x01, 0x03, 0x00, 0x1d, 0x00, 0x00, 0xff, 0x09,
            0x00, 0x00, 0x00, 0x00, 0x00, 0x00, 0x00, 0x00, 0x01, 0x00, 0xb8, 0x0d, 0x00, 0x00, 0x01,
        ]
    );
    assert_eq!(g.probe_request(445).payload, vec![0x81, 0x00, 0x00, 0x44]);
    assert!(g.probe_request(9999).payload.is_empty());
}

#[test]
fn simple_requests() {
    let g = BannerGrabber::new();
    for port in [80, 443, 8080, 8443] {
        assert_eq!(get_probe_for_port(port), Some("GET / HTTP/1.1\r\nHost: \r\n\r\n"));
        assert_eq!(g.simple_request(port).payload, b"GET / HTTP/1.1\r\nHost: \r\n\r\n".to_vec());
    }
    for port in [21, 22, 25, 110, 143, 993, 995, 8000, 1] {
        assert_eq!(get_probe_for_port(port), None);
        assert!(g.simple_request(port).payload.is_empty());
    }
    assert_eq!(g.simple_request(80).read_len, 1024);
}

#[test]
fn lines_are_cut_as_text_lines() {
    let cut = |s: &str| -> Vec<String> { lines_of(&chars(s)).iter().map(|l| text(l)).collect() };
    for s in ["", "a", "a\n", "a\nb", "a\r\nb\r\n", "\n", "\n\n", "a\r", "a\r\n\rb", "\r\n", "a\r\r\nb", "x\n\ny\n"] {
        let expected: Vec<String> = s.lines().map(|l| l.to_string()).collect();
        assert_eq!(cut(s), expected, "lines of {:?}", s);
    }
    assert_eq!(text(&first_line_of(&chars("one\r\ntwo"))), "one");
    assert_eq!(text(&first_line_of(&chars(""))), "");
}

#[test]
fn ssh_banner_is_the_first_line() {
    assert_eq!(probe(22, b"SSH-2.0-OpenSSH_7.4\r\n"), found("SSH", "SSH-2.0-OpenSSH_7.4"));
    assert_eq!(probe(22, b"SSH-2.0-X  \nmore"), found("SSH", "SSH-2.0-X"));
    assert_eq!(probe(22, b"ssh-2.0"), Err(BannerError::ProbeFailed(22)));
    assert_eq!(probe(22, b""), Err(BannerError::ProbeFailed(22)));
    assert_eq!(
        BannerGrabber::new().probe_service(22, &None).map(|p| p.banner),
        Err(BannerError::ProbeFailed(22))
    );
}

#[test]
fn greetings_of_text_protocols() {
    assert_eq!(probe(21, b"220 ProFTPD Server\r\n"), found("FTP", "220 ProFTPD Server"));
    assert_eq!(probe(21, b"500 no"), Err(BannerError::ProbeFailed(21)));
    assert_eq!(probe(25, b"220 mail.example.com ESMTP\r\n"), found("SMTP", "220 mail.example.com ESMTP"));
    assert_eq!(probe(587, b"220-hello\r\n220 x"), found("SMTP", "220-hello"));
    assert_eq!(probe(110, b"+OK POP3 ready\r\n"), found("POP3", "+OK POP3 ready"));
    assert_eq!(probe(110, b"-ERR"), Err(BannerError::ProbeFailed(110)));
    assert_eq!(probe(143, b"* OK IMAP4rev1\r\n"), found("IMAP", "* OK IMAP4rev1"));
    assert_eq!(probe(143, b"*OK"), Err(BannerError::ProbeFailed(143)));
    assert_eq!(
        read_greeting(&chars("220 x\r\n"), "220").map(|b| text(&b)),
        Some("220 x".to_string())
    );
    assert_eq!(read_greeting(&chars("221 x"), "220"), None);
}

#[test]
fn http_banner_has_status_and_server() {
    assert_eq!(
        probe(80, b"HTTP/1.1 200 OK\r\nServer: Test/1.0\r\n\r\n"),
        found("HTTP", "HTTP/1.1 200 OK Server: Test/1.0")
    );
    assert_eq!(
        probe(8080, b"HTTP/1.0 404 Not Found\r\nDate: x\r\nSERVER: nginx \r\nserver: second\r\n\r\n"),
        found("HTTP", "HTTP/1.0 404 Not Found SERVER: nginx")
    );
    assert_eq!(probe(8000, b"HTTP/1.1 200 OK\r\nDate: x\r\n\r\n"), found("HTTP", "HTTP/1.1 200 OK"));
    // A header that is only the name is kept as it is.
    assert_eq!(probe(3000, b"HTTP/1.1 200 OK\nServer:\n"), found("HTTP", "HTTP/1.1 200 OK Server:"));
    assert_eq!(probe(80, b"<html>"), Err(BannerError::ProbeFailed(80)));
    assert_eq!(
        read_http(&chars("HTTP/2 200\r\nserver: a\r\n")).map(|b| text(&b)),
        Some("HTTP/2 200 server: a".to_string())
    );
}

#[test]
fn server_line_is_found_by_the_lowered_lines() {
    let lines = vec![chars("A"), chars("Server: x"), chars("server: y")];
    let lowered = vec![chars("a"), chars("server: x"), chars("server: y")];
    assert_eq!(text(&find_server_line(&lines, &lowered)), "Server: x");
    let lowered = vec![chars("a"), chars("b"), chars("server: y")];
    assert_eq!(text(&find_server_line(&lines, &lowered)), "server: y");
    let lowered = vec![chars("a")];
    assert_eq!(text(&find_server_line(&lines, &lowered)), "");
}

#[test]
fn tls_reply_gives_the_version_bytes() {
    assert_eq!(
        probe(443, &[0x16, 3, 3, 0, 50, 1, 2]),
        found("TLS/SSL", "TLS handshake successful (version: 3.3)")
    );
    assert_eq!(
        probe(993, &[0x16, 255, 0, 0, 0]),
        found("TLS/SSL", "TLS handshake successful (version: 255.0)")
    );
    assert_eq!(probe(995, &[0x16, 3, 3, 0]), Err(BannerError::ProbeFailed(995)));
    assert_eq!(probe(8443, &[0x15, 3, 3, 0, 2]), Err(BannerError::ProbeFailed(8443)));
}

#[test]
fn binary_probes() {
    let mut dns = vec![0u8; 12];
    assert_eq!(probe(53, &dns), Err(BannerError::ProbeFailed(53)));
    dns[2] = 0x81;
    assert_eq!(probe(53, &dns), found("DNS", "DNS server responding"));
    assert_eq!(probe(53, &dns[..11]), Err(BannerError::ProbeFailed(53)));

    assert_eq!(probe(3389, &[3, 0, 0, 19]), found("RDP", "Remote Desktop Protocol"));
    assert_eq!(probe(3389, &[3, 0, 0]), Err(BannerError::ProbeFailed(3389)));
    assert_eq!(probe(3389, &[3, 1, 0, 19]), Err(BannerError::ProbeFailed(3389)));

    assert_eq!(probe(5432, b"S"), found("PostgreSQL", "PostgreSQL database"));
    assert_eq!(probe(5432, b"N"), found("PostgreSQL", "PostgreSQL database"));
    assert_eq!(probe(5432, b"E"), Err(BannerError::ProbeFailed(5432)));
    assert_eq!(probe(5432, b""), Err(BannerError::ProbeFailed(5432)));

    assert_eq!(probe(1433, &[4, 1, 0, 0x2b, 0, 0, 1, 0]), found("MSSQL", "Microsoft SQL Server"));
    assert_eq!(probe(1433, &[4, 1, 0, 0x2b, 0, 0, 1]), Err(BannerError::ProbeFailed(1433)));

    assert_eq!(probe(445, &[0x82, 0, 0, 0]), found("SMB/NetBIOS", "SMB/CIFS file sharing"));
    assert_eq!(probe(139, &[0x83, 0, 0, 1, 0x8f]), found("SMB/NetBIOS", "SMB/CIFS file sharing"));
    assert_eq!(probe(445, &[0x84, 0, 0, 0]), Err(BannerError::ProbeFailed(445)));
}

#[test]
fn mysql_version_ends_at_zero_or_after_20_bytes() {
    let mut handshake = vec![0x4a, 0, 0, 0, 0x0a];
    handshake.extend_from_slice(b"8.0.32\0rest");
    assert_eq!(probe(3306, &handshake), found("MySQL", "MySQL 8.0.32"));
    let mut long = vec![0x4a, 0, 0, 0, 0x0a];
    long.extend_from_slice(b"5.7.44-0ubuntu0.18.04.1-log\0");
    assert_eq!(probe(3306, &long), found("MySQL", "MySQL 5.7.44-0ubuntu0.18.0"));
    let mut cut = vec![0x4a, 0, 0, 0, 0x0a];
    cut.extend_from_slice(b"5.5");
    assert_eq!(probe(3306, &cut), found("MySQL", "MySQL 5.5"));
    assert_eq!(probe(3306, &[0x4a, 0, 0, 0, 0x0a]), found("MySQL", "MySQL "));
    assert_eq!(probe(3306, &[0x4a, 0, 0, 0, 0x09, b'5']), Err(BannerError::ProbeFailed(3306)));
    assert_eq!(probe(3306, &[0x4a, 0, 0, 0]), Err(BannerError::ProbeFailed(3306)));
}

#[test]
fn generic_probe_tags_the_port() {
    assert_eq!(probe(23, b"  login:\r\nnow \n"), found("Unknown:23", "login:  now"));
    assert_eq!(probe(6000, b"hi"), found("Unknown:6000", "hi"));
    assert_eq!(probe(6000, b" \r\n "), Err(BannerError::ProbeFailed(6000)));
    assert_eq!(probe(6000, b""), Err(BannerError::ProbeFailed(6000)));
    // Invalid UTF-8 is replaced, not rejected.
    assert_eq!(probe(6000, &[b'a', 0xff, b'b']), found("Unknown:6000", "a\u{fffd}b"));
    assert_eq!(
        read_probe(ProbeKind::Generic, 65535, &b"x".to_vec()).map(|p| p.service),
        Some("Unknown:65535".to_string())
    );
}

#[test]
fn simple_grab_drops_carriage_returns() {
    let g = BannerGrabber::new();
    assert_eq!(
        g.simple_banner_grab(80, &reply(b"  HTTP/1.1 200 OK\r\nServer: x\r\n\r\n")),
        Ok("HTTP/1.1 200 OK Server: x".to_string())
    );
    assert_eq!(g.simple_banner_grab(80, &reply(b"a\rb\nc")), Ok("ab c".to_string()));
    assert_eq!(g.simple_banner_grab(80, &reply(b"\r\n")), Err(BannerError::NoBanner));
    assert_eq!(g.simple_banner_grab(80, &reply(b"")), Err(BannerError::NoBanner));
    assert_eq!(g.simple_banner_grab(80, &None), Err(BannerError::NoBanner));
    // A carriage return alone is whitespace and trimmed; one inside is dropped.
    assert_eq!(g.simple_banner_grab(1, &reply(b"x\r")), Ok("x".to_string()));
}

#[test]
fn grab_banner_reports_or_falls_back() {
    let g = BannerGrabber::new();
    match g.grab_banner(22, &reply(b"SSH-2.0-OpenSSH_7.4\r\n")) {
        GrabStep::Done(line) => assert_eq!(line, "SSH - SSH-2.0-OpenSSH_7.4"),
        other => panic!("unexpected: {:?}", other),
    }
    match g.grab_banner(80, &reply(b"HTTP/1.1 200 OK\r\nServer: Test/1.0\r\n\r\n")) {
        GrabStep::Done(line) => assert_eq!(line, "HTTP - HTTP/1.1 200 OK Server: Test/1.0"),
        other => panic!("unexpected: {:?}", other),
    }
    match g.grab_banner(80, &reply(b"garbage")) {
        GrabStep::Fallback(exchange) => {
            assert_eq!(exchange.payload, b"GET / HTTP/1.1\r\nHost: \r\n\r\n".to_vec());
            assert_eq!(exchange.read_len, 1024);
            assert_eq!(exchange.timeout_ms, 5000);
        }
        other => panic!("unexpected: {:?}", other),
    }
    match g.grab_banner(22, &None) {
        GrabStep::Fallback(exchange) => assert!(exchange.payload.is_empty()),
        other => panic!("unexpected: {:?}", other),
    }
}
