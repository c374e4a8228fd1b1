//! The handle on a running shell session's command history, reached over a
//! Unix socket whose path the session id fixes.

use vstd::prelude::*;

verus! {

/// A client of one session's history server.
#[derive(Clone, Debug)]
pub struct KrokitSessionClient {
    pub socket_path: String,
}

pub open spec fn socket_path_of(session_id: Seq<char>) -> Seq<char> {
    "/tmp/krokit_history_"@ + session_id
}

impl KrokitSessionClient {
    pub fn new(session_id: &str) -> (r: KrokitSessionClient)
        ensures
            r.socket_path@ == socket_path_of(session_id@),
    {
        let mut socket_path = String::from_str("/tmp/krokit_history_");
        socket_path.append(session_id);
        KrokitSessionClient { socket_path }
    }

    /// The socket to connect to, and whose existence tells whether the
    /// session runs.
    pub fn socket(&self) -> (r: &str)
        ensures
            r@ == self.socket_path@,
    {
        self.socket_path.as_str()
    }
}

} // verus!
