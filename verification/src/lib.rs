//! Remote software management: encryption of transmitted data and the
//! bookkeeping a server keeps about files and processes it manages.
pub mod crypto;
pub mod server;
