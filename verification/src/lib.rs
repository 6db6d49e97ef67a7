//! Cookie-backed session authentication: credentials are checked by a
//! pluggable authenticator, a successful check is turned into a session
//! token, and every later request recovers the identity from its cookies.
//!
//! The token is the identity's JSON record under a checksum. The checksum
//! catches a changed character; it is not a signature, and a deployment that
//! must withstand forged cookies has to keep the cookie in an encrypted or
//! signed jar as well.

pub mod error;
pub mod identity;
pub mod codec;
pub mod fields;
pub mod jar;
pub mod credential;
pub mod authenticator;
pub mod seal;
pub mod site;
pub mod token;
pub mod status;
pub mod guard;
pub mod laws;
