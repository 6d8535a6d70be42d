//! The header lines that tell a backend whom a request comes from, and both
//! sides which request it is.

use vstd::prelude::*;

use crate::address::{
    first_of, viewed, FrontAddresses, FrontAddressesView, IpAddr, IpAddrView, SocketAddr,
    SocketAddrView,
};
use crate::text::{append_decimal, decimal};

verus! {

/// The protocol that a session speaks with its client.
#[derive(Debug, Clone, Copy, PartialEq, Eq, Structural)]
pub enum Protocol {
    HTTP,
    HTTPS,
    /// Any protocol that carries no HTTP.
    Other,
}

/// What a request is forwarded with: its sender, the address it was sent to,
/// and the port it came in by.
pub struct Forwarding {
    pub peer: SocketAddrView,
    pub front: IpAddrView,
    pub port: u16,
}

/// What is known of the way of a request, if all of it is. An address that
/// the session was given takes precedence over that of the socket.
pub open spec fn forwarding(
    public_address: Option<IpAddrView>,
    session_address: Option<SocketAddrView>,
    addresses: FrontAddressesView,
) -> Option<Forwarding> {
    let local_ip = match addresses.local {
        Some(local) => Some(local.ip),
        None => None,
    };
    match (
        first_of(session_address, addresses.peer),
        first_of(public_address, local_ip),
        addresses.local,
    ) {
        (Some(peer), Some(front), Some(local)) => Some(Forwarding { peer, front, port: local.port }),
        _ => None,
    }
}

pub open spec fn protocol_name(protocol: Protocol) -> Seq<char> {
    if protocol == Protocol::HTTPS {
        "https"@
    } else {
        "http"@
    }
}

/// `text`, in quotes if need be.
pub open spec fn quoted(text: Seq<char>, quotes: bool) -> Seq<char> {
    if quotes {
        "\""@ + text + "\""@
    } else {
        text
    }
}

/// The line that identifies the request.
pub open spec fn id_line(request_id: Seq<char>) -> Seq<char> {
    "Sozu-Id: "@ + request_id + "\r\n"@
}

/// The header lines that a request gets.
pub open spec fn request_header(
    forwarding: Option<Forwarding>,
    protocol: Protocol,
    request_id: Seq<char>,
) -> Seq<char> {
    match forwarding {
        Some(way) => {
            let proto = protocol_name(protocol);
            let ip = way.peer.ip.text();
            "Forwarded: proto="@ + proto + ";for="@ + quoted(
                ip + ":"@ + decimal(way.peer.port as nat),
                way.peer.ip.is_v6(),
            ) + ";by="@ + quoted(way.front.text(), way.front.is_v6()) + "\r\nX-Forwarded-Proto: "@
                + proto + "\r\nX-Forwarded-For: "@ + ip + "\r\nX-Forwarded-Port: "@ + decimal(
                way.port as nat,
            ) + "\r\n"@ + id_line(request_id)
        },
        None => id_line(request_id),
    }
}

/// Whether all is known of the way of a request.
pub fn is_way_known(
    public_address: &Option<IpAddr>,
    session_address: &Option<SocketAddr>,
    addresses: &FrontAddresses,
) -> (r: bool)
    ensures
        r == (forwarding(viewed(*public_address), viewed(*session_address), addresses@) is Some),
{
    // the socket that tells its port tells its address too
    (session_address.is_some() || addresses.peer.is_some()) && addresses.local.is_some()
}

/// Writes the line that identifies the request at the end of `out`.
pub fn append_id_line(out: &mut String, request_id: &str)
    ensures
        final(out)@ == old(out)@ + id_line(request_id@),
{
    out.append("Sozu-Id: ");
    out.append(request_id);
    out.append("\r\n");
}

/// Writes `text` at the end of `out`, in quotes if need be.
fn append_quoted(out: &mut String, text: &str, quotes: bool)
    ensures
        final(out)@ == old(out)@ + quoted(text@, quotes),
{
    if quotes {
        out.append("\"");
        out.append(text);
        out.append("\"");
    } else {
        out.append(text);
    }
}

/// The header lines for a request whose way is known.
fn forwarded_lines(
    peer: &SocketAddr,
    front: &IpAddr,
    port: u16,
    protocol: Protocol,
    request_id: &str,
) -> (header: String)
    requires
        protocol != Protocol::Other,
    ensures
        header@ == request_header(
            Some(Forwarding { peer: peer@, front: front@, port }),
            protocol,
            request_id@,
        ),
{
    let proto = match protocol {
        Protocol::HTTPS => "https",
        _ => "http",
    };
    let mut header = "Forwarded: proto=".to_owned();
    header.append(proto);
    header.append(";for=");
    let mut sender = peer.ip.text().to_owned();
    sender.append(":");
    append_decimal(&mut sender, peer.port as usize);
    append_quoted(&mut header, sender.as_str(), peer.ip.is_v6());
    header.append(";by=");
    append_quoted(&mut header, front.text(), front.is_v6());
    header.append("\r\nX-Forwarded-Proto: ");
    header.append(proto);
    header.append("\r\nX-Forwarded-For: ");
    header.append(peer.ip.text());
    header.append("\r\nX-Forwarded-Port: ");
    append_decimal(&mut header, port as usize);
    header.append("\r\n");
    append_id_line(&mut header, request_id);
    header
}

/// The header lines that a request gets.
pub fn make_request_header(
    public_address: &Option<IpAddr>,
    session_address: &Option<SocketAddr>,
    addresses: &FrontAddresses,
    protocol: Protocol,
    request_id: &str,
) -> (header: String)
    requires
        forwarding(viewed(*public_address), viewed(*session_address), addresses@) is Some ==> protocol
            != Protocol::Other,
    ensures
        header@ == request_header(
            forwarding(viewed(*public_address), viewed(*session_address), addresses@),
            protocol,
            request_id@,
        ),
{
    let peer = match session_address {
        Some(_) => session_address,
        None => &addresses.peer,
    };
    match (peer, &addresses.local) {
        (Some(peer), Some(local)) => {
            let front = match public_address {
                Some(front) => front,
                None => &local.ip,
            };
            forwarded_lines(peer, front, local.port, protocol, request_id)
        },
        _ => {
            let mut header = String::new();
            append_id_line(&mut header, request_id);
            header
        },
    }
}

} // verus!
