//! What the clipboard side-channel decides about certificates, handshakes and
//! the events that it reports.
//!
//! The side-channel is one mutually authenticated TLS connection over TCP for
//! each peer, on the port number that the input events use over UDP.

use vstd::prelude::*;
use vstd::slice::slice_to_vec;
use vstd::string::StringExecFns;

use crate::crypto::generate_fingerprint;
use crate::error::IoError;
use crate::peer_addr::PeerAddr;
use crate::proto::{
    CapMsg, CapMsgView, DecodeError, FrameError, CAP_CLIPBOARD, PROTOCOL_VERSION,
};
use crate::text::{contains_text, text_equal};

verus! {

/// TCP keepalive: idle time before the first probe, in seconds.
pub const KEEPALIVE_IDLE_SECS: u64 = 30;

/// TCP keepalive: time between two probes, in seconds.
pub const KEEPALIVE_INTERVAL_SECS: u64 = 10;

/// TCP keepalive: unanswered probes after which the peer counts as gone.
pub const KEEPALIVE_RETRIES: u32 = 3;

/// How long a peer may take to send its `Hello`, in seconds, so that a silent
/// peer cannot pin a slot indefinitely.
pub const HELLO_TIMEOUT_SECS: u64 = 10;

/// What the TLS layer is told or reports.
#[derive(Debug)]
pub enum TlsError {
    /// The peer showed no certificate.
    NoCertificatesPresented,
    /// Any other failure, in words.
    General(String),
}

/// The mathematical value of a [`TlsError`].
#[verifier::ext_equal]
pub enum TlsErrorView {
    NoCertificatesPresented,
    General(Seq<char>),
}

impl View for TlsError {
    type V = TlsErrorView;

    open spec fn view(&self) -> TlsErrorView {
        match self {
            TlsError::NoCertificatesPresented => TlsErrorView::NoCertificatesPresented,
            TlsError::General(text) => TlsErrorView::General(text@),
        }
    }
}

/// What can go wrong on the side-channel.
#[derive(Debug)]
pub enum ClipboardNetError {
    Io(IoError),
    Rustls(TlsError),
    /// The local certificate or its PKCS#8 key cannot be used.
    InvalidPrivateKey(String),
    /// The peer announced another fingerprint than its certificate has.
    HelloFingerprintMismatch { tls: String, hello: String },
    ProtocolVersionMismatch { local: u16, remote: u16 },
    /// The first frame was not a `Hello` but this.
    ExpectedHello(&'static str),
    /// A payload has, or claims to have, this many bytes.
    FrameTooLarge(u32),
    Decode(DecodeError),
    Encode(postcard::Error),
    /// No `Hello` came in time.
    HelloTimeout,
}

/// The mathematical value of a [`ClipboardNetError`].
#[verifier::ext_equal]
pub enum NetErrorView {
    Io(IoError),
    Rustls(TlsErrorView),
    InvalidPrivateKey(Seq<char>),
    HelloFingerprintMismatch { tls: Seq<char>, hello: Seq<char> },
    ProtocolVersionMismatch { local: u16, remote: u16 },
    ExpectedHello(Seq<char>),
    FrameTooLarge(u32),
    Decode(DecodeError),
    Encode(postcard::Error),
    HelloTimeout,
}

impl View for ClipboardNetError {
    type V = NetErrorView;

    open spec fn view(&self) -> NetErrorView {
        match self {
            ClipboardNetError::Io(e) => NetErrorView::Io(*e),
            ClipboardNetError::Rustls(e) => NetErrorView::Rustls(e@),
            ClipboardNetError::InvalidPrivateKey(text) => NetErrorView::InvalidPrivateKey(text@),
            ClipboardNetError::HelloFingerprintMismatch {
                tls,
                hello,
            } => NetErrorView::HelloFingerprintMismatch { tls: tls@, hello: hello@ },
            ClipboardNetError::ProtocolVersionMismatch {
                local,
                remote,
            } => NetErrorView::ProtocolVersionMismatch { local: *local, remote: *remote },
            ClipboardNetError::ExpectedHello(got) => NetErrorView::ExpectedHello(got@),
            ClipboardNetError::FrameTooLarge(len) => NetErrorView::FrameTooLarge(*len),
            ClipboardNetError::Decode(e) => NetErrorView::Decode(*e),
            ClipboardNetError::Encode(e) => NetErrorView::Encode(*e),
            ClipboardNetError::HelloTimeout => NetErrorView::HelloTimeout,
        }
    }
}

/// A frame's failure as a failure of the connection.
pub open spec fn net_error_of(error: FrameError) -> ClipboardNetError {
    match error {
        FrameError::TooLarge(len) => ClipboardNetError::FrameTooLarge(len),
        FrameError::Io(e) => ClipboardNetError::Io(e),
        FrameError::Encode(e) => ClipboardNetError::Encode(e),
        FrameError::Decode(e) => ClipboardNetError::Decode(e),
    }
}

impl From<FrameError> for ClipboardNetError {
    fn from(error: FrameError) -> (converted: ClipboardNetError) {
        match error {
            FrameError::TooLarge(len) => ClipboardNetError::FrameTooLarge(len),
            FrameError::Io(e) => ClipboardNetError::Io(e),
            FrameError::Encode(e) => ClipboardNetError::Encode(e),
            FrameError::Decode(e) => ClipboardNetError::Decode(e),
        }
    }
}

impl vstd::std_specs::convert::FromSpecImpl<FrameError> for ClipboardNetError {
    open spec fn obeys_from_spec() -> bool {
        true
    }

    open spec fn from_spec(error: FrameError) -> ClipboardNetError {
        net_error_of(error)
    }
}

/// Events emitted by the clipboard side-channel for the clipboard task.
#[derive(Debug)]
pub enum ClipboardNetEvent {
    /// A peer completed the TLS and `Hello` handshakes.
    PeerConnected { addr: PeerAddr, fingerprint: String, capabilities: u32 },
    /// A peer's connection went away.
    PeerDisconnected { addr: PeerAddr, fingerprint: String },
    /// A message was received from a peer.
    Message { addr: PeerAddr, fingerprint: String, msg: CapMsg },
}

/// The mathematical value of a [`ClipboardNetEvent`].
#[verifier::ext_equal]
pub enum NetEventView {
    PeerConnected { addr: PeerAddr, fingerprint: Seq<char>, capabilities: u32 },
    PeerDisconnected { addr: PeerAddr, fingerprint: Seq<char> },
    Message { addr: PeerAddr, fingerprint: Seq<char>, msg: CapMsgView },
}

impl View for ClipboardNetEvent {
    type V = NetEventView;

    open spec fn view(&self) -> NetEventView {
        match self {
            ClipboardNetEvent::PeerConnected {
                addr,
                fingerprint,
                capabilities,
            } => NetEventView::PeerConnected {
                addr: *addr,
                fingerprint: fingerprint@,
                capabilities: *capabilities,
            },
            ClipboardNetEvent::PeerDisconnected {
                addr,
                fingerprint,
            } => NetEventView::PeerDisconnected { addr: *addr, fingerprint: fingerprint@ },
            ClipboardNetEvent::Message {
                addr,
                fingerprint,
                msg,
            } => NetEventView::Message { addr: *addr, fingerprint: fingerprint@, msg: msg@ },
        }
    }
}

/// The address to listen on: every interface, the given port.
pub fn listen_addr(port: u16) -> (addr: PeerAddr)
    ensures
        addr == (PeerAddr::V4 { ip: 0, port }),
{
    PeerAddr::V4 { ip: 0, port }
}

/// The `Hello` of a peer with fingerprint `peer_id`.
pub open spec fn hello_of(peer_id: Seq<char>) -> CapMsgView {
    CapMsgView::Hello {
        protocol_version: PROTOCOL_VERSION,
        peer_id,
        capabilities: CAP_CLIPBOARD,
    }
}

/// The `Hello` that this peer opens every connection with.
pub fn local_hello(local_fingerprint: &str) -> (hello: CapMsg)
    ensures
        hello@ == hello_of(local_fingerprint@),
{
    CapMsg::Hello {
        protocol_version: PROTOCOL_VERSION,
        peer_id: local_fingerprint.to_owned(),
        capabilities: CAP_CLIPBOARD,
    }
}

/// What the first frame of a peer leads to: its capabilities, or why it is not
/// let in.
pub open spec fn hello_result(frame: CapMsgView, tls_fingerprint: Seq<char>) -> Result<
    u32,
    NetErrorView,
> {
    match frame {
        CapMsgView::Hello { protocol_version, peer_id, capabilities } => if protocol_version
            != PROTOCOL_VERSION {
            Err(
                NetErrorView::ProtocolVersionMismatch {
                    local: PROTOCOL_VERSION,
                    remote: protocol_version,
                },
            )
        } else if peer_id != tls_fingerprint {
            Err(NetErrorView::HelloFingerprintMismatch { tls: tls_fingerprint, hello: peer_id })
        } else {
            Ok(capabilities)
        },
        CapMsgView::Clipboard { .. } => Err(NetErrorView::ExpectedHello("Clipboard"@)),
    }
}

/// Judges the first frame of a peer whose certificate has `tls_fingerprint`.
/// A peer must announce the fingerprint that it has proved, so that no
/// authorized peer can pass for another.
pub fn accept_hello(frame: CapMsg, tls_fingerprint: &str) -> (result: Result<
    u32,
    ClipboardNetError,
>)
    ensures
        match result {
            Ok(capabilities) => hello_result(frame@, tls_fingerprint@) == Ok::<u32, NetErrorView>(
                capabilities,
            ),
            Err(e) => hello_result(frame@, tls_fingerprint@) == Err::<u32, NetErrorView>(e@),
        },
{
    match frame {
        CapMsg::Hello { protocol_version, peer_id, capabilities } => {
            if protocol_version != PROTOCOL_VERSION {
                return Err(
                    ClipboardNetError::ProtocolVersionMismatch {
                        local: PROTOCOL_VERSION,
                        remote: protocol_version,
                    },
                );
            }
            if !text_equal(peer_id.as_str(), tls_fingerprint) {
                return Err(
                    ClipboardNetError::HelloFingerprintMismatch {
                        tls: tls_fingerprint.to_owned(),
                        hello: peer_id,
                    },
                );
            }
            Ok(capabilities)
        },
        CapMsg::Clipboard { .. } => Err(ClipboardNetError::ExpectedHello("Clipboard")),
    }
}

/// The fingerprint of the peer's leaf certificate: the first of those that it
/// showed, in DER form.
pub fn extract_peer_fingerprint(peer_certs: Option<&Vec<Vec<u8>>>) -> (result: Result<
    String,
    ClipboardNetError,
>)
    ensures
        match peer_certs {
            Some(certs) if certs@.len() > 0 => result matches Ok(fingerprint) && fingerprint@
                == crate::crypto::fingerprint_of(certs@[0]@),
            _ => result == Err::<String, ClipboardNetError>(
                ClipboardNetError::Rustls(TlsError::NoCertificatesPresented),
            ),
        },
{
    match peer_certs {
        Some(certs) => if certs.len() > 0 {
            Ok(generate_fingerprint(certs[0].as_slice()))
        } else {
            Err(ClipboardNetError::Rustls(TlsError::NoCertificatesPresented))
        },
        None => Err(ClipboardNetError::Rustls(TlsError::NoCertificatesPresented)),
    }
}

/// `result` is what taking a certificate apart gives.
pub open spec fn is_split(
    certificate: Seq<Vec<u8>>,
    serialized_der: Seq<u8>,
    result: Result<(Vec<Vec<u8>>, Vec<u8>), ClipboardNetError>,
) -> bool {
    match result {
        Ok((chain, key)) => {
            &&& certificate.len() > 0
            &&& serialized_der.len() > 0
            &&& chain@.len() == certificate.len()
            &&& forall|i: int|
                0 <= i < chain@.len() ==> (#[trigger] chain@[i])@ == certificate[i]@
            &&& key@ == serialized_der
        },
        Err(_) => certificate.len() == 0 || serialized_der.len() == 0,
    }
}

/// Takes the local certificate apart: its chain and its private key, both in
/// DER form.
pub fn split_cert(certificate: &Vec<Vec<u8>>, serialized_der: &Vec<u8>) -> (result: Result<
    (Vec<Vec<u8>>, Vec<u8>),
    ClipboardNetError,
>)
    ensures
        match result {
            Ok((chain, key)) => {
                &&& certificate@.len() > 0
                &&& serialized_der@.len() > 0
                &&& chain@.len() == certificate@.len()
                &&& forall|i: int|
                    0 <= i < chain@.len() ==> (#[trigger] chain@[i])@ == certificate@[i]@
                &&& key@ == serialized_der@
            },
            Err(e) => e@ == if certificate@.len() == 0 {
                NetErrorView::InvalidPrivateKey("no certificate present"@)
            } else {
                NetErrorView::InvalidPrivateKey("empty serialized_der"@)
            },
        },
        result is Ok <==> certificate@.len() > 0 && serialized_der@.len() > 0,
        is_split(certificate@, serialized_der@, result),
{
    if certificate.len() == 0 {
        return Err(ClipboardNetError::InvalidPrivateKey("no certificate present".to_owned()));
    }
    if serialized_der.len() == 0 {
        return Err(ClipboardNetError::InvalidPrivateKey("empty serialized_der".to_owned()));
    }
    let mut chain: Vec<Vec<u8>> = Vec::new();
    let mut i: usize = 0;
    while i < certificate.len()
        invariant
            i <= certificate@.len(),
            chain@.len() == i,
            forall|j: int| 0 <= j < i ==> (#[trigger] chain@[j])@ == certificate@[j]@,
        decreases certificate@.len() - i,
    {
        let cert: Vec<u8> = slice_to_vec(certificate[i].as_slice());
        chain.push(cert);
        i = i + 1;
    }
    Ok((chain, slice_to_vec(serialized_der.as_slice())))
}

/// Accepts a peer iff the SHA-256 fingerprint of its leaf certificate is
/// authorized.
#[derive(Debug)]
pub struct FingerprintVerifier {
    pub authorized_keys: Vec<String>,
}

/// One of `keys` is the fingerprint of the certificate `cert`.
pub open spec fn is_authorized(keys: Seq<String>, cert: Seq<u8>) -> bool {
    crate::text::holds_text(keys, crate::crypto::fingerprint_of(cert))
}

/// What a peer without authorization is told.
pub open spec fn unauthorized_text(fingerprint: Seq<char>) -> Seq<char> {
    "peer fingerprint "@ + fingerprint + " not authorized"@
}

impl FingerprintVerifier {
    /// Judges a leaf certificate in DER form.
    pub fn check(&self, end_entity: &[u8]) -> (result: Result<(), TlsError>)
        ensures
            crate::text::holds_text(
                self.authorized_keys@,
                crate::crypto::fingerprint_of(end_entity@),
            ) ==> result is Ok,
            !crate::text::holds_text(
                self.authorized_keys@,
                crate::crypto::fingerprint_of(end_entity@),
            ) ==> (result matches Err(e) && e@ == TlsErrorView::General(
                unauthorized_text(crate::crypto::fingerprint_of(end_entity@)),
            )),
            result is Ok == is_authorized(self.authorized_keys@, end_entity@),
    {
        let fingerprint: String = generate_fingerprint(end_entity);
        if contains_text(&self.authorized_keys, fingerprint.as_str()) {
            return Ok(());
        }
        let mut text: String = "peer fingerprint ".to_owned();
        text.append(fingerprint.as_str());
        text.append(" not authorized");
        Err(TlsError::General(text))
    }
}

} // verus!
