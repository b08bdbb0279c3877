//! Core logic of a local HTTP/HTTPS interception proxy: a certificate
//! authority that signs per-domain leaf certificates, a parser for the TLS
//! ClientHello Server Name Indication, a bounded filterable capture store,
//! the protocol decisions of the connection handler, packet rewriting for
//! transparent redirection, and the small pure computations of the
//! surrounding tool set.

pub mod ca;
pub mod capture;
pub mod driver;
pub mod handler;
pub mod imaging;
pub mod installer;
pub mod media;
pub mod packet;
pub mod process_list;
pub mod procman;
pub mod redirector;
pub mod server;
pub mod sni;
pub mod store;
pub mod strutil;
pub mod watermark_detect;
