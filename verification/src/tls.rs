//! Connections under TLS.

use crate::error::{ErrorView, ProtocolError};
use native_tls::{Identity, TlsConnector};
use vstd::prelude::*;

verus! {

#[verifier::external_type_specification]
#[verifier::external_body]
pub struct ExIdentity(Identity);

#[verifier::external_type_specification]
#[verifier::external_body]
pub struct ExTlsConnector(TlsConnector);

#[verifier::external_type_specification]
#[verifier::external_body]
pub struct ExTlsError(native_tls::Error);

/// Whether a connector was made to accept certificates that are not valid.
pub uninterp spec fn accepts_invalid(connector: TlsConnector) -> bool;

/// The identity that a connector was made to present.
pub uninterp spec fn presents(connector: TlsConnector) -> Option<Identity>;

/// Calls `native_tls::TlsConnector::builder` and its `identity`,
/// `danger_accept_invalid_certs` and `build`: a connector is made with what it
/// is given. Whether one can be made is up to the system's TLS library.
#[verifier::external_body]
fn connector_with_identity(identity: &Identity, accept_invalid: bool) -> (r: Result<
    TlsConnector,
    native_tls::Error,
>)
    ensures
        r matches Ok(c) ==> accepts_invalid(c) == accept_invalid && presents(c) == Some(*identity),
{
    TlsConnector::builder()
        .identity(identity.clone())
        .danger_accept_invalid_certs(accept_invalid)
        .build()
}

/// Calls `native_tls::TlsConnector::builder` and its
/// `danger_accept_invalid_certs` and `build`: a connector without an identity.
/// Whether one can be made is up to the system's TLS library.
#[verifier::external_body]
fn connector_without_identity(accept_invalid: bool) -> (r: Result<TlsConnector, native_tls::Error>)
    ensures
        r matches Ok(c) ==> accepts_invalid(c) == accept_invalid && presents(c) is None,
{
    TlsConnector::builder().danger_accept_invalid_certs(accept_invalid).build()
}

/// Whether an error of the TLS library may read so. It is a relation and picks
/// no text: the text is the library's own.
pub uninterp spec fn tls_error_may_read(e: native_tls::Error, text: Seq<char>) -> bool;

/// Calls `to_string` on a `native_tls::Error`: it gives a text that this error
/// may read as. Which one is up to the TLS library.
#[verifier::external_body]
fn tls_error_text(e: &native_tls::Error) -> (r: String)
    ensures
        tls_error_may_read(*e, r@),
{
    e.to_string()
}

pub struct TlsConfig {
    identity: Option<Identity>,
    accept_invalid_certs: bool,
}

/// The mathematical model of a [`TlsConfig`].
pub struct TlsView {
    pub identity: Option<Identity>,
    pub accept_invalid_certs: bool,
}

impl View for TlsConfig {
    type V = TlsView;

    closed spec fn view(&self) -> TlsView {
        TlsView { identity: self.identity, accept_invalid_certs: self.accept_invalid_certs }
    }
}

impl TlsConfig {
    pub fn new() -> (r: TlsConfig)
        ensures
            r@ == (TlsView { identity: None, accept_invalid_certs: false }),
    {
        TlsConfig { identity: None, accept_invalid_certs: false }
    }

    pub fn with_identity(self, identity: Identity) -> (r: TlsConfig)
        ensures
            r@ == (TlsView { identity: Some(identity), ..self@ }),
    {
        TlsConfig { identity: Some(identity), ..self }
    }

    pub fn accept_invalid_certs(self) -> (r: TlsConfig)
        ensures
            r@ == (TlsView { accept_invalid_certs: true, ..self@ }),
    {
        TlsConfig { accept_invalid_certs: true, ..self }
    }

    /// A connector with these settings. Whether one can be made is up to the
    /// system's TLS library; if not, its error is told.
    pub fn build(&self) -> (r: Result<TlsConnector, ProtocolError>)
        ensures
            match r {
                Ok(c) => accepts_invalid(c) == self@.accept_invalid_certs && presents(c)
                    == self@.identity,
                Err(e) => exists|cause: native_tls::Error, text: Seq<char>| #[trigger]
                    tls_error_may_read(cause, text) && e@ == ErrorView::ConnectionFailed(text),
            },
    {
        let built = match &self.identity {
            Some(identity) => connector_with_identity(identity, self.accept_invalid_certs),
            None => connector_without_identity(self.accept_invalid_certs),
        };
        match built {
            Ok(connector) => Ok(connector),
            Err(e) => {
                let text = tls_error_text(&e);
                assert(tls_error_may_read(e, text@));
                Err(ProtocolError::ConnectionFailed(text))
            },
        }
    }
}

impl Default for TlsConfig {
    fn default() -> (r: TlsConfig)
        ensures
            r@ == (TlsView { identity: None, accept_invalid_certs: false }),
    {
        TlsConfig::new()
    }
}

/// The error of a client that could not be set up.
pub fn setup_error(cause: &ProtocolError) -> (r: ProtocolError)
    ensures
        r@ == ErrorView::ConnectionFailed(cause@.message()),
{
    ProtocolError::ConnectionFailed(cause.to_string())
}

} // verus!
