//! Configuration of the server that hosts the reduce service: the
//! domain-socket endpoint, the server-info handshake file, and the
//! per-direction message-size limit.
//!
//! The transport adapter reads this configuration when it binds the
//! listener; the paths are held as plain strings.

use vstd::prelude::*;

verus! {

/// Default maximum size of an encoded or decoded message: 64 MiB.
pub const DEFAULT_MAX_MESSAGE_SIZE: usize = 64 * 1024 * 1024;

/// Default endpoint path of the domain socket.
pub open spec fn default_socket_path() -> Seq<char> {
    "/var/run/numaflow/reduce.sock"@
}

/// Default path of the server-info handshake file.
pub open spec fn default_server_info_path() -> Seq<char> {
    "/var/run/numaflow/reducer-server-info"@
}

/// Server configuration for a reduce service, holding the reducer creator
/// until the transport takes it at start.
#[derive(Debug)]
pub struct Server<C> {
    pub sock_addr: String,
    pub max_message_size: usize,
    pub server_info_file: String,
    pub creator: Option<C>,
}

impl<C> Server<C> {
    /// Create a new Server with the given reducer creator and the default
    /// socket path, server-info path and message-size limit.
    pub fn new(creator: C) -> (r: Server<C>)
        ensures
            r.sock_addr@ == default_socket_path(),
            r.max_message_size == DEFAULT_MAX_MESSAGE_SIZE,
            r.server_info_file@ == default_server_info_path(),
            r.creator == Some(creator),
    {
        Server {
            sock_addr: "/var/run/numaflow/reduce.sock".to_owned(),
            max_message_size: DEFAULT_MAX_MESSAGE_SIZE,
            server_info_file: "/var/run/numaflow/reducer-server-info".to_owned(),
            creator: Some(creator),
        }
    }

    /// Set the unix domain socket file path used by the server to listen
    /// for incoming connections.
    pub fn with_socket_file(self, file: String) -> (r: Server<C>)
        ensures
            r.sock_addr@ == file@,
            r.max_message_size == self.max_message_size,
            r.server_info_file == self.server_info_file,
            r.creator == self.creator,
    {
        Server { sock_addr: file, ..self }
    }

    /// Get the unix domain socket file path where the server listens for
    /// incoming connections.
    pub fn socket_file(&self) -> (r: &String)
        ensures
            r == self.sock_addr,
    {
        &self.sock_addr
    }

    /// Set the maximum size of an encoded and decoded message, in bytes.
    pub fn with_max_message_size(self, message_size: usize) -> (r: Server<C>)
        ensures
            r.max_message_size == message_size,
            r.sock_addr == self.sock_addr,
            r.server_info_file == self.server_info_file,
            r.creator == self.creator,
    {
        Server { max_message_size: message_size, ..self }
    }

    /// Get the maximum size of an encoded and decoded message, in bytes.
    pub fn max_message_size(&self) -> (r: usize)
        ensures
            r == self.max_message_size,
    {
        self.max_message_size
    }

    /// Change the file in which the server information is stored on start
    /// up to the new value.
    pub fn with_server_info_file(self, file: String) -> (r: Server<C>)
        ensures
            r.server_info_file@ == file@,
            r.sock_addr == self.sock_addr,
            r.max_message_size == self.max_message_size,
            r.creator == self.creator,
    {
        Server { server_info_file: file, ..self }
    }

    /// Get the path to the file where the server info is stored.
    pub fn server_info_file(&self) -> (r: &String)
        ensures
            r == self.server_info_file,
    {
        &self.server_info_file
    }

    /// Hand the reducer creator to the transport.  Returns it only once:
    /// the first call after construction yields the creator, any later
    /// call yields nothing.
    pub fn take_creator(&mut self) -> (r: Option<C>)
        ensures
            r == old(self).creator,
            final(self).creator is None,
            final(self).sock_addr == old(self).sock_addr,
            final(self).max_message_size == old(self).max_message_size,
            final(self).server_info_file == old(self).server_info_file,
    {
        self.creator.take()
    }
}

} // verus!
