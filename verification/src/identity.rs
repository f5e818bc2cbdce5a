use vstd::prelude::*;

use crate::errors::IdentityError;

verus! {

/// The identity that secures the transport: an ordered certificate chain,
/// leaf first, and the matching private key, all as DER bytes.
pub struct Identity {
    pub chain: Vec<Vec<u8>>,
    pub key: Vec<u8>,
}

impl Identity {
    /// The chain as the byte sequences of its certificates, leaf first.
    pub open spec fn chain_seq(self) -> Seq<Seq<u8>> {
        self.chain@.map_values(|c: Vec<u8>| c@)
    }

    /// Well-formed: the chain holds at least the leaf certificate.
    pub open spec fn wf(self) -> bool {
        self.chain@.len() > 0
    }
}

/// The DER contents of the PKCS#8 private-key sections of a PEM input, in
/// order, or nothing if the PEM structure is malformed.
pub uninterp spec fn pkcs8_keys_of(data: Seq<u8>) -> Option<Seq<Seq<u8>>>;

/// The DER contents of the RSA private-key sections of a PEM input, in
/// order, or nothing if the PEM structure is malformed.
pub uninterp spec fn rsa_keys_of(data: Seq<u8>) -> Option<Seq<Seq<u8>>>;

/// The DER contents of the certificate sections of a PEM input, in order,
/// or nothing if the PEM structure is malformed.
pub uninterp spec fn pem_certs_of(data: Seq<u8>) -> Option<Seq<Seq<u8>>>;

/// Relies on rustls_pemfile::pkcs8_private_keys: extracts the DER contents
/// of every PKCS#8 private-key section of a PEM input, in order, failing
/// only on a malformed PEM structure; the result depends on the bytes alone.
#[verifier::external_body]
fn read_pkcs8_keys(data: &Vec<u8>) -> (r: Option<Vec<Vec<u8>>>)
    ensures
        match r {
            Some(ks) => pkcs8_keys_of(data@) == Some(ks@.map_values(|k: Vec<u8>| k@)),
            None => pkcs8_keys_of(data@) is None,
        },
{
    rustls_pemfile::pkcs8_private_keys(&mut data.as_slice()).ok()
}

/// Relies on rustls_pemfile::rsa_private_keys: extracts the DER contents of
/// every RSA private-key section of a PEM input, in order, failing only on
/// a malformed PEM structure; the result depends on the bytes alone.
#[verifier::external_body]
fn read_rsa_keys(data: &Vec<u8>) -> (r: Option<Vec<Vec<u8>>>)
    ensures
        match r {
            Some(ks) => rsa_keys_of(data@) == Some(ks@.map_values(|k: Vec<u8>| k@)),
            None => rsa_keys_of(data@) is None,
        },
{
    rustls_pemfile::rsa_private_keys(&mut data.as_slice()).ok()
}

/// Relies on rustls_pemfile::certs: extracts the DER contents of every
/// certificate section of a PEM input, in order, failing only on a
/// malformed PEM structure; the result depends on the bytes alone.
#[verifier::external_body]
fn read_pem_certs(data: &Vec<u8>) -> (r: Option<Vec<Vec<u8>>>)
    ensures
        match r {
            Some(cs) => pem_certs_of(data@) == Some(cs@.map_values(|c: Vec<u8>| c@)),
            None => pem_certs_of(data@) is None,
        },
{
    rustls_pemfile::certs(&mut data.as_slice()).ok()
}

/// The private key a configured PEM key file yields: the first PKCS#8 key if
/// any, else the first RSA key if any, else NoKeyFound; ParseError if the
/// PEM structure itself is malformed.
pub open spec fn spec_key_from_pem(data: Seq<u8>) -> Result<Seq<u8>, IdentityError> {
    match pkcs8_keys_of(data) {
        Option::None => Err(IdentityError::ParseError),
        Option::Some(ks) => if ks.len() > 0 {
            Ok(ks[0])
        } else {
            match rsa_keys_of(data) {
                Option::None => Err(IdentityError::ParseError),
                Option::Some(rs) => if rs.len() > 0 {
                    Ok(rs[0])
                } else {
                    Err(IdentityError::NoKeyFound)
                },
            }
        },
    }
}

/// The private key a configured key file yields: the raw bytes when the file
/// is binary-encoded, else what its PEM content yields.
pub open spec fn spec_key_from_config(data: Seq<u8>, binary: bool) -> Result<
    Seq<u8>,
    IdentityError,
> {
    if binary {
        Ok(data)
    } else {
        spec_key_from_pem(data)
    }
}

/// The certificate chain a configured certificate file yields: the raw bytes
/// as a single certificate when the file is binary-encoded, else the PEM
/// chain; a malformed or empty PEM chain is ParseError, since an identity
/// needs at least the leaf certificate.
pub open spec fn spec_chain_from_config(data: Seq<u8>, binary: bool) -> Result<
    Seq<Seq<u8>>,
    IdentityError,
> {
    if binary {
        Ok(seq![data])
    } else {
        match pem_certs_of(data) {
            Option::None => Err(IdentityError::ParseError),
            Option::Some(cs) => if cs.len() > 0 {
                Ok(cs)
            } else {
                Err(IdentityError::ParseError)
            },
        }
    }
}

/// The identity that configured key and certificate files yield: the key is
/// resolved first, then the chain, and the first failure is reported.
pub open spec fn spec_identity_from_config(
    key: Seq<u8>,
    key_binary: bool,
    cert: Seq<u8>,
    cert_binary: bool,
) -> Result<(Seq<Seq<u8>>, Seq<u8>), IdentityError> {
    match spec_key_from_config(key, key_binary) {
        Err(e) => Err(e),
        Ok(k) => match spec_chain_from_config(cert, cert_binary) {
            Err(e) => Err(e),
            Ok(c) => Ok((c, k)),
        },
    }
}

/// Resolve the identity from configured key and certificate file contents.
/// `key_binary` and `cert_binary` say whether the file's extension marked it
/// as binary DER rather than PEM.
pub fn identity_from_config(
    key_data: &Vec<u8>,
    key_binary: bool,
    cert_data: &Vec<u8>,
    cert_binary: bool,
) -> (r: Result<Identity, IdentityError>)
    ensures
        match r {
            Ok(id) => id.wf() && spec_identity_from_config(
                key_data@,
                key_binary,
                cert_data@,
                cert_binary,
            ) == Ok::<(Seq<Seq<u8>>, Seq<u8>), IdentityError>((id.chain_seq(), id.key@)),
            Err(e) => spec_identity_from_config(key_data@, key_binary, cert_data@, cert_binary)
                == Err::<(Seq<Seq<u8>>, Seq<u8>), IdentityError>(e),
        },
{
    let key: Vec<u8> = if key_binary {
        vstd::slice::slice_to_vec(key_data.as_slice())
    } else {
        match read_pkcs8_keys(key_data) {
            None => {
                return Err(IdentityError::ParseError);
            },
            Some(mut ks) => {
                if ks.len() > 0 {
                    ks.remove(0)
                } else {
                    match read_rsa_keys(key_data) {
                        None => {
                            return Err(IdentityError::ParseError);
                        },
                        Some(mut rs) => {
                            if rs.len() > 0 {
                                rs.remove(0)
                            } else {
                                return Err(IdentityError::NoKeyFound);
                            }
                        },
                    }
                }
            },
        }
    };
    let chain: Vec<Vec<u8>> = if cert_binary {
        let mut c: Vec<Vec<u8>> = Vec::new();
        c.push(vstd::slice::slice_to_vec(cert_data.as_slice()));
        c
    } else {
        match read_pem_certs(cert_data) {
            None => {
                return Err(IdentityError::ParseError);
            },
            Some(cs) => {
                if cs.len() > 0 {
                    cs
                } else {
                    return Err(IdentityError::ParseError);
                }
            },
        }
    };
    let id = Identity { chain, key };
    proof {
        if cert_binary {
            assert(id.chain_seq() =~= seq![cert_data@]);
        }
    }
    Ok(id)
}

/// What the two file reads of the working directory yielded, as bytes.
pub open spec fn spec_file_view(o: Option<Vec<u8>>) -> Option<Seq<u8>> {
    match o {
        Option::Some(v) => Option::Some(v@),
        Option::None => Option::None,
    }
}

/// The bootstrap decision, abstractly: reuse exactly the two files' bytes as
/// a one-certificate identity, or generate afresh.
pub enum SpecBootstrapPlan {
    Reuse(Seq<Seq<u8>>, Seq<u8>),
    Generate,
}

/// A previously persisted pair is reused exactly as read — the certificate
/// alone in the chain, the key as the key; anything less than both files
/// means a fresh identity must be generated.
pub open spec fn spec_bootstrap_plan(cert: Option<Seq<u8>>, key: Option<Seq<u8>>)
    -> SpecBootstrapPlan {
    match (cert, key) {
        (Option::Some(c), Option::Some(k)) => SpecBootstrapPlan::Reuse(seq![c], k),
        _ => SpecBootstrapPlan::Generate,
    }
}

/// The bootstrap decision when no identity paths were configured.
pub enum BootstrapPlan {
    /// Both fixed files were present and readable: reuse them as they are.
    Reuse(Identity),
    /// Generate a fresh self-signed identity and persist it.
    Generate,
}

/// Decide how to bootstrap when no identity paths were configured, from what
/// reading the two fixed files in the working directory yielded.
pub fn bootstrap_plan(cert_file: Option<Vec<u8>>, key_file: Option<Vec<u8>>) -> (r: BootstrapPlan)
    ensures
        match r {
            BootstrapPlan::Reuse(id) => id.wf() && spec_bootstrap_plan(
                spec_file_view(cert_file),
                spec_file_view(key_file),
            ) == SpecBootstrapPlan::Reuse(id.chain_seq(), id.key@),
            BootstrapPlan::Generate => spec_bootstrap_plan(
                spec_file_view(cert_file),
                spec_file_view(key_file),
            ) == SpecBootstrapPlan::Generate,
        },
{
    match (cert_file, key_file) {
        (Some(c), Some(k)) => {
            let mut chain: Vec<Vec<u8>> = Vec::new();
            let ghost c_view = c@;
            chain.push(c);
            let id = Identity { chain, key: k };
            proof {
                assert(id.chain_seq() =~= seq![c_view]);
            }
            BootstrapPlan::Reuse(id)
        },
        _ => BootstrapPlan::Generate,
    }
}

/// Declares rcgen::Certificate, the generator's opaque handle to a freshly
/// made certificate and key pair, so it can pass between the wrappers below.
#[verifier::external_type_specification]
#[verifier::external_body]
pub struct ExRcgenCertificate(rcgen::Certificate);

/// Declares rcgen::RcgenError, the generator's error type; the callers below
/// map it to this crate's own identity errors.
#[verifier::external_type_specification]
#[verifier::external_body]
pub struct ExRcgenError(rcgen::RcgenError);

/// Relies on rcgen::generate_simple_self_signed: a fresh self-signed
/// certificate valid for the given subject-alt names. The material is
/// freshly generated, so nothing is promised of its value.
#[verifier::external_body]
fn generate_self_signed(names: Vec<String>) -> (r: Result<rcgen::Certificate, rcgen::RcgenError>) {
    rcgen::generate_simple_self_signed(names)
}

/// Relies on rcgen::Certificate::serialize_der: the certificate serialized
/// and signed in DER form; signing may draw fresh randomness, so nothing is
/// promised of the bytes.
#[verifier::external_body]
fn certificate_der(cert: &rcgen::Certificate) -> (r: Result<Vec<u8>, rcgen::RcgenError>) {
    cert.serialize_der()
}

/// Relies on rcgen::Certificate::serialize_private_key_der: the generated
/// private key in PKCS#8 DER form.
#[verifier::external_body]
fn private_key_der(cert: &rcgen::Certificate) -> (r: Vec<u8>) {
    cert.serialize_private_key_der()
}

/// A freshly generated identity together with the two DER files that must
/// be persisted so a later run can reuse it.
pub struct GeneratedIdentity {
    pub identity: Identity,
    pub cert_der: Vec<u8>,
    pub key_der: Vec<u8>,
}

/// Generate a new self-signed identity for the host name `localhost`.
/// Whatever bytes the generator returns, the identity is well-formed, its
/// chain is exactly the one generated certificate and its key the generated
/// key — so persisting `cert_der` and `key_der` and reading them back later
/// reuses this very identity. A generation failure is fatal, as the tool
/// cannot proceed without a usable identity.
pub fn generate_identity() -> (r: Result<GeneratedIdentity, IdentityError>)
    ensures
        match r {
            Ok(g) => g.identity.wf() && g.identity.chain_seq() == seq![g.cert_der@]
                && g.identity.key@ == g.key_der@,
            Err(e) => e == IdentityError::IoError,
        },
{
    let mut names: Vec<String> = Vec::new();
    names.push(String::from_str("localhost"));
    let cert = match generate_self_signed(names) {
        Ok(c) => c,
        Err(_) => {
            return Err(IdentityError::IoError);
        },
    };
    let cert_der = match certificate_der(&cert) {
        Ok(d) => d,
        Err(_) => {
            return Err(IdentityError::IoError);
        },
    };
    let key_der = private_key_der(&cert);
    let mut chain: Vec<Vec<u8>> = Vec::new();
    chain.push(vstd::slice::slice_to_vec(cert_der.as_slice()));
    let identity = Identity { chain, key: vstd::slice::slice_to_vec(key_der.as_slice()) };
    proof {
        assert(identity.chain_seq() =~= seq![cert_der@]);
    }
    Ok(GeneratedIdentity { identity, cert_der, key_der })
}

/// Law (idempotent bootstrap): with neither file present the first run must
/// generate; once a generated pair is persisted, a later run that reads
/// exactly those two files back reuses the identical pair — the same
/// certificate bytes as the whole chain and the same key — with no
/// regeneration.
pub proof fn lemma_bootstrap_idempotent(c: Seq<u8>, k: Seq<u8>)
    ensures
        spec_bootstrap_plan(Option::None, Option::None) == SpecBootstrapPlan::Generate,
        spec_bootstrap_plan(Option::Some(c), Option::None) == SpecBootstrapPlan::Generate,
        spec_bootstrap_plan(Option::None, Option::Some(k)) == SpecBootstrapPlan::Generate,
        spec_bootstrap_plan(Option::Some(c), Option::Some(k)) == SpecBootstrapPlan::Reuse(
            seq![c],
            k,
        ),
{
}

} // verus!
