//! Electronic signatures: crypto providers, user certificates and the
//! signatures of object versions.

use vstd::prelude::*;

verus! {

/// The kinds of crypto providers.
#[derive(PartialEq, Eq, Structural, Clone, Copy, Debug)]
pub enum CryptoProviderKind {
    CryptoproCsp,
}

/// A crypto provider installed on the machine. Times are milliseconds since
/// the Unix epoch.
pub struct CryptoProvider {
    pub id: String,
    pub kind: CryptoProviderKind,
    pub name: String,
    pub executable_path: Option<String>,
    pub active: bool,
    pub created_at: i64,
}

/// A user's signing certificate.
pub struct UserCertificate {
    pub id: String,
    pub user_id: String,
    pub provider_id: String,
    pub thumbprint: String,
    pub subject: String,
    pub valid_from: i64,
    pub valid_to: i64,
    pub active: bool,
    pub created_at: i64,
}

/// The signature of one version of an object.
pub struct ObjectSignature {
    pub id: String,
    pub object_id: String,
    pub version: i64,
    pub certificate_id: String,
    pub signer_user_id: String,
    pub algorithm: String,
    pub signature_value: String,
    pub signed_at: i64,
}

/// The signing service.
pub struct CryptoService;

impl CryptoService {
    /// The service.
    pub fn new() -> (r: CryptoService)
        ensures
            r == CryptoService,
    {
        CryptoService
    }

    /// The product name of a provider kind.
    pub fn provider_name(&self, kind: &CryptoProviderKind) -> (r: &'static str)
        ensures
            r@ == (match *kind { CryptoProviderKind::CryptoproCsp => "КриптоПро CSP"@ }),
    {
        match kind {
            CryptoProviderKind::CryptoproCsp => "КриптоПро CSP",
        }
    }
}

} // verus!
