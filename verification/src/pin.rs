//! The certificate-pinning trust verifier.
//!
//! One identity is designated as "the" trusted peer for a given role.  A
//! presented end-entity identity is accepted if and only if it is
//! byte-identical to that pinned reference.  No chain is walked, no expiry,
//! revocation or hostname logic runs; intermediate entries and every other
//! handshake artefact are ignored.  The same equality predicate serves both
//! roles: checking the client certificate of an inbound peer on the relay
//! side, and checking the server certificate presented by the relay on the
//! dial side.

use vstd::prelude::*;

use crate::identity::Identity;

verus! {

/// Witness that a client certificate passed the pin check.
pub struct ClientCertVerified;

impl ClientCertVerified {
    /// Assert the check passed; carries no data.
    pub fn assertion() -> ClientCertVerified {
        ClientCertVerified
    }
}

/// Witness that a server certificate passed the pin check.
pub struct ServerCertVerified;

impl ServerCertVerified {
    /// Assert the check passed; carries no data.
    pub fn assertion() -> ServerCertVerified {
        ServerCertVerified
    }
}

/// The one rejection the verifier ever issues: the presented identity is not
/// the pinned reference.
pub enum VerifyError {
    ApplicationVerificationFailure,
}

/// A trust anchor of exactly one certificate.
///
/// `distinguished_names` is the list of acceptable certificate-issuer names
/// advertised to connecting clients; it holds a single empty name, since the
/// trust decision is pin-based and no issuer is ever inspected.
pub struct SingleCertVerifier {
    pub certificate: Identity,
    pub distinguished_names: Vec<Vec<u8>>,
}

impl SingleCertVerifier {
    /// Pin exactly this certificate.
    pub fn new(certificate: Identity) -> (v: SingleCertVerifier)
        ensures
            v.certificate@ == certificate@,
            v.distinguished_names@.len() == 1,
            v.distinguished_names@[0]@.len() == 0,
    {
        let empty_name: Vec<u8> = Vec::new();
        let mut distinguished_names: Vec<Vec<u8>> = Vec::new();
        distinguished_names.push(empty_name);
        SingleCertVerifier { certificate, distinguished_names }
    }

    /// The advertised issuer names: a single empty entry, carrying no trust
    /// semantics.
    pub fn client_auth_root_subjects(&self) -> (r: &Vec<Vec<u8>>)
        ensures
            r@ == self.distinguished_names@,
    {
        &self.distinguished_names
    }

    /// Pin check in the server role: validate the identity presented by an
    /// inbound connecting peer.  Accepted if and only if `end_entity` is
    /// byte-identical to the pinned certificate; `intermediates` play no
    /// part in the decision.
    pub fn verify_client_cert(
        &self,
        end_entity: &Identity,
        _intermediates: &Vec<Identity>,
    ) -> (r: Result<ClientCertVerified, VerifyError>)
        ensures
            r is Ok <==> end_entity@ == self.certificate@,
            r is Err <==> end_entity@ != self.certificate@,
            r matches Err(e) ==> e is ApplicationVerificationFailure,
    {
        if end_entity.same_bytes(&self.certificate) {
            Ok(ClientCertVerified::assertion())
        } else {
            Err(VerifyError::ApplicationVerificationFailure)
        }
    }

    /// Pin check in the client role: validate the identity presented by the
    /// relay during an outbound handshake.  Accepted if and only if
    /// `end_entity` is byte-identical to the pinned certificate;
    /// `intermediates`, the server name and any stapled `ocsp_response` play
    /// no part in the decision.
    pub fn verify_server_cert(
        &self,
        end_entity: &Identity,
        _intermediates: &Vec<Identity>,
        _server_name: &Vec<u8>,
        _ocsp_response: &Vec<u8>,
    ) -> (r: Result<ServerCertVerified, VerifyError>)
        ensures
            r is Ok <==> end_entity@ == self.certificate@,
            r is Err <==> end_entity@ != self.certificate@,
            r matches Err(e) ==> e is ApplicationVerificationFailure,
    {
        if end_entity.same_bytes(&self.certificate) {
            Ok(ServerCertVerified::assertion())
        } else {
            Err(VerifyError::ApplicationVerificationFailure)
        }
    }
}

} // verus!
