use vstd::prelude::*;

verus! {

/// A server that listens on a socket.
#[derive(Debug)]
pub struct Server {
    socket_path: String,
}

impl View for Server {
    type V = Seq<char>;

    /// The path of the socket.
    closed spec fn view(&self) -> Seq<char> {
        self.socket_path@
    }
}

impl Server {
    /// A server for the socket at `socket_path`.
    pub fn new(socket_path: String) -> (out: Server)
        ensures
            out@ == socket_path@,
    {
        Server { socket_path }
    }

    /// The path of the socket.
    pub fn socket_path(&self) -> (out: &str)
        ensures
            out@ == self@,
    {
        self.socket_path.as_str()
    }
}

} // verus!
