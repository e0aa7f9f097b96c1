//! The connector: shared, immutable protocol configuration that produces
//! client streams on demand.  The configuration is constructed once by the
//! caller and shared across arbitrarily many streams; the connector itself
//! only binds a new engine session to it.  Driving the handshake to
//! completion is the caller's loop over `TlsStream::handshake`, since that
//! is where the transport operations happen.

use vstd::prelude::*;

use crate::TlsError;
use crate::stream::TlsStream;

verus! {

/// Shared client configuration; cloning shares the same configuration.
#[derive(Clone)]
pub struct TlsConnector {
    inner: std::sync::Arc<rustls::ClientConfig>,
}

impl TlsConnector {
    /// The shared configuration.
    pub closed spec fn config_spec(self) -> std::sync::Arc<rustls::ClientConfig> {
        self.inner
    }

    /// Bind a new client session for the peer named by `domain` to the
    /// shared configuration and wrap it in a fresh stream, ready for the
    /// caller to drive the handshake.  Fails when the engine rejects the
    /// peer identity or the configuration.
    pub fn connect(&self, domain: &str) -> (r: Result<TlsStream, TlsError>)
        ensures
            r matches Ok(s) ==> {
                &&& s.wf()
                &&& s.quiescent()
                &&& s.rd_spec().pending() == Seq::<u8>::empty()
                &&& !s.rd_spec().at_eof()
                &&& s.wr_spec().pending() == Seq::<u8>::empty()
                &&& !s.hs_spec().draining()
                &&& !s.hs_spec().saw_eof()
            },
            r is Ok ==> crate::engine::valid_server_name(domain@),
            !crate::engine::valid_server_name(domain@) ==> (r matches Err(e) && e == TlsError::Session),
    {
        TlsStream::new_client(&self.inner, domain)
    }
}

impl From<std::sync::Arc<rustls::ClientConfig>> for TlsConnector {
    /// Adopt a shared configuration as a connector: the very configuration
    /// handed in is what every stream the connector produces will share.
    fn from(inner: std::sync::Arc<rustls::ClientConfig>) -> (r: TlsConnector)
        ensures
            r.config_spec() == inner,
    {
        TlsConnector { inner }
    }
}

impl vstd::std_specs::convert::FromSpecImpl<std::sync::Arc<rustls::ClientConfig>> for TlsConnector {
    open spec fn obeys_from_spec() -> bool {
        true
    }

    closed spec fn from_spec(inner: std::sync::Arc<rustls::ClientConfig>) -> TlsConnector {
        TlsConnector { inner }
    }
}

} // verus!
