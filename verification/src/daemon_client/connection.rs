//! One connection to the daemon's socket: how it is made, and how a request
//! and its answer are framed on it.

use crate::daemon_client::error::Error;
use crate::text::{chars_of, concat2, concat3, contains, join_path, joined, occurs_at};
use vstd::prelude::*;

verus! {

/// Where the socket stands under the home directory when nothing else is
/// configured.
pub const DEFAULT_SOCKET_PATH: &'static str = ".humanlayer/daemon.sock";

/// How long a connection attempt, and the wait for one answer, may take, in
/// milliseconds.
pub const CONNECTION_TIMEOUT_MS: u64 = 5000;

/// The pause between two connection attempts, in milliseconds.
pub const RETRY_DELAY_MS: u64 = 500;

/// What came of one attempt to connect to the socket at a path.
#[derive(Debug, Clone)]
pub enum ConnectAttempt {
    /// Nothing stands at the path.
    Missing,
    /// The connection is made.
    Connected,
    /// The operating system refused, for the reason given.
    Failed(String),
    /// The attempt took longer than `CONNECTION_TIMEOUT_MS`.
    TimedOut,
}

/// What came of waiting for one line of answer.
#[derive(Debug, Clone)]
pub enum ReadOutcome {
    /// These characters were read, up to and with the line end.
    Line(String),
    /// Nothing was read: the daemon has closed the connection.
    Closed,
    /// The read failed, for the reason given.
    Failed(String),
    /// The wait took longer than `CONNECTION_TIMEOUT_MS`.
    TimedOut,
}

/// What follows an attempt to connect, when attempts may be repeated.
#[derive(Debug)]
pub enum RetryStep {
    /// The connection is made.
    Connected(Connection),
    /// Pause for this many milliseconds, then try again.
    RetryAfter(u64),
    /// Give up with the error of this attempt, which was the last.
    GiveUp(Error),
}

/// The error that says that no socket stands at `path`.
pub open spec fn socket_missing(path: Seq<char>) -> Seq<char> {
    "Socket not found at \""@ + path + "\". Is the daemon running?"@
}

/// `line` without the line feed at its end, if it has one.
pub open spec fn without_line_end(line: Seq<char>) -> Seq<char> {
    if line.len() > 0 && line.last() == '\n' {
        line.drop_last()
    } else {
        line
    }
}

/// `line` without the line feed at its end, if it has one.
pub fn strip_line_end(line: &str) -> (out: String)
    ensures
        out@ == without_line_end(line@),
{
    let text = chars_of(line);
    let len = text.len();
    if len > 0 && text[len - 1] == '\n' {
        assert(line@.subrange(0, len - 1) == line@.drop_last());
        line.substring_char(0, len - 1).to_string()
    } else {
        line.to_string()
    }
}

/// A connection to the daemon, by the path of its socket. The stream itself
/// is the caller's.
#[derive(Debug, Clone, PartialEq, Eq)]
pub struct Connection {
    socket_path: String,
}

impl View for Connection {
    type V = Seq<char>;

    closed spec fn view(&self) -> Seq<char> {
        self.socket_path@
    }
}

impl Connection {
    /// The path of the socket: the configured one where there is one, else
    /// the default one under the home directory, if that is known.
    pub open spec fn default_path(
        configured: Option<Seq<char>>,
        home_dir: Option<Seq<char>>,
    ) -> Option<Seq<char>> {
        match configured {
            Some(path) => Some(path),
            None => match home_dir {
                Some(home) => Some(join_path(home, DEFAULT_SOCKET_PATH@)),
                None => None,
            },
        }
    }

    /// The path of the socket when the caller names none: the value of the
    /// variable `HUMANLAYER_DAEMON_SOCKET` where it is set, else the default
    /// path under the home directory. Where neither is known there is none.
    pub fn default_socket_path(configured: Option<String>, home_dir: Option<String>) -> (path:
        Option<String>)
        ensures
            path.deep_view() == Self::default_path(configured.deep_view(), home_dir.deep_view()),
    {
        match configured {
            Some(path) => Some(path),
            None => match home_dir {
                Some(home) => Some(joined(home.as_str(), DEFAULT_SOCKET_PATH)),
                None => None,
            },
        }
    }

    /// What an attempt to connect to `path` comes to.
    pub open spec fn connect_result(path: Seq<char>, attempt: ConnectAttempt, made: Result<
        Connection,
        Error,
    >) -> bool {
        match attempt {
            ConnectAttempt::Connected => made matches Ok(connection) && connection@ == path,
            ConnectAttempt::Missing => made matches Err(Error::Connection(why)) && why@
                == socket_missing(path),
            ConnectAttempt::Failed(why) => made == Err::<Connection, Error>(Error::Socket(why)),
            ConnectAttempt::TimedOut => made == Err::<Connection, Error>(Error::Timeout),
        }
    }

    /// What one attempt to connect to the socket at `path` comes to: a
    /// connection, or the error that says what stood in the way. A socket
    /// that is not there means that the daemon does not run, and the error
    /// names the path.
    pub fn connect_to_socket(path: &str, attempt: ConnectAttempt) -> (made: Result<
        Connection,
        Error,
    >)
        ensures
            Self::connect_result(path@, attempt, made),
    {
        match attempt {
            ConnectAttempt::Connected => Ok(Connection { socket_path: path.to_string() }),
            ConnectAttempt::Missing => Err(
                Error::Connection(
                    concat3("Socket not found at \"", path, "\". Is the daemon running?"),
                ),
            ),
            ConnectAttempt::Failed(why) => Err(Error::Socket(why)),
            ConnectAttempt::TimedOut => Err(Error::Timeout),
        }
    }

    /// What follows the attempt number `attempt` (the first is number 0) when
    /// up to `max_retries` further attempts are allowed after the first.
    pub open spec fn retry_result(
        path: Seq<char>,
        attempt: u32,
        max_retries: u32,
        outcome: ConnectAttempt,
        step: RetryStep,
    ) -> bool {
        match outcome {
            ConnectAttempt::Connected => step matches RetryStep::Connected(connection)
                && connection@ == path,
            _ => if attempt < max_retries {
                step == RetryStep::RetryAfter(RETRY_DELAY_MS)
            } else {
                step matches RetryStep::GiveUp(why) && Self::connect_result(
                    path,
                    outcome,
                    Err(why),
                )
            },
        }
    }

    /// One step of connecting with retries: a connection ends it; a failed
    /// attempt is followed by a fixed pause and another attempt while the
    /// budget lasts, and the error of the last attempt is the error of the
    /// whole.
    pub fn connect_with_retries(
        path: &str,
        attempt: u32,
        max_retries: u32,
        outcome: ConnectAttempt,
    ) -> (step: RetryStep)
        ensures
            Self::retry_result(path@, attempt, max_retries, outcome, step),
    {
        match Self::connect_to_socket(path, outcome) {
            Ok(connection) => RetryStep::Connected(connection),
            Err(why) => if attempt < max_retries {
                RetryStep::RetryAfter(RETRY_DELAY_MS)
            } else {
                RetryStep::GiveUp(why)
            },
        }
    }

    /// The path of the socket that this connection was made to.
    pub fn socket_path(&self) -> (path: &str)
        ensures
            path@ == self@,
    {
        self.socket_path.as_str()
    }

    /// What goes over the wire for `message`: the message, then a line feed.
    pub open spec fn framed(message: Seq<char>) -> Seq<char> {
        message + seq!['\n']
    }

    /// What the answer to a request comes to.
    pub open spec fn reply(outcome: ReadOutcome, answer: Result<String, Error>) -> bool {
        match outcome {
            ReadOutcome::Line(line) => answer matches Ok(text) && text@ == without_line_end(line@),
            ReadOutcome::Closed => answer matches Err(Error::Connection(why)) && why@
                == "Connection closed by daemon"@,
            ReadOutcome::Failed(why) => answer == Err::<String, Error>(Error::Socket(why)),
            ReadOutcome::TimedOut => answer == Err::<String, Error>(Error::Timeout),
        }
    }

    /// Frames `message` for the wire: one line, ended by a line feed.
    pub fn frame(message: &str) -> (line: String)
        ensures
            line@ == Self::framed(message@),
    {
        proof {
            reveal_strlit("\n");
        }
        let line = concat2(message, "\n");
        assert(line@ =~= Self::framed(message@));
        line
    }

    /// The line that goes over the wire for the request `message`. The
    /// caller writes it and reads the answer while it holds the stream for
    /// itself: one request is under way at a time.
    pub fn send_request(&self, message: &str) -> (line: String)
        ensures
            line@ == Self::framed(message@),
    {
        Self::frame(message)
    }

    /// What was read in answer to a request: the line without its line feed;
    /// a closed connection, a failed read and a passed deadline are three
    /// different errors.
    pub fn receive_reply(&self, outcome: ReadOutcome) -> (answer: Result<String, Error>)
        ensures
            Self::reply(outcome, answer),
    {
        match outcome {
            ReadOutcome::Line(line) => Ok(strip_line_end(line.as_str())),
            ReadOutcome::Closed => Err(Error::Connection("Connection closed by daemon".to_string())),
            ReadOutcome::Failed(why) => Err(Error::Socket(why)),
            ReadOutcome::TimedOut => Err(Error::Timeout),
        }
    }

    /// What an attempt to connect anew to the same socket comes to. The
    /// caller puts the new stream in the place of the old one while it holds
    /// the stream for itself, as it does for a request, so that no request
    /// sees half of the change; where the attempt fails the old one stays.
    pub fn reconnect(&mut self, attempt: ConnectAttempt) -> (made: Result<(), Error>)
        ensures
            final(self)@ == old(self)@,
            made is Ok <==> attempt is Connected,
            made is Err ==> Self::connect_result(
                old(self)@,
                attempt,
                Err::<Connection, Error>(made->Err_0),
            ),
    {
        match Self::connect_to_socket(self.socket_path.as_str(), attempt) {
            Ok(_) => Ok(()),
            Err(why) => Err(why),
        }
    }

    /// What an attempt to open a second connection to the same socket comes
    /// to. It stands beside this one and leaves it as it is.
    pub fn create_subscription_connection(&self, attempt: ConnectAttempt) -> (made: Result<
        Connection,
        Error,
    >)
        ensures
            Self::connect_result(self@, attempt, made),
    {
        Self::connect_to_socket(self.socket_path.as_str(), attempt)
    }
}

/// The error for a socket that is not there names the path of the socket,
/// whatever the path is.
pub proof fn lemma_missing_socket_names_path(path: Seq<char>)
    ensures
        contains(socket_missing(path), path),
{
    let before = "Socket not found at \""@;
    let whole = socket_missing(path);
    let at = before.len() as int;
    assert(whole.subrange(at, at + path.len()) =~= path);
    assert(occurs_at(whole, path, at));
}

} // verus!
