//! The line protocol of the control endpoint: `<command> [module]`.
use vstd::prelude::*;
use vstd::string::StringExecFns;
use crate::text::{split_words, str_eq, strings_view, trim, trimmed, words};

verus! {

/// One request of the control protocol.
pub enum Request {
    /// Subscribe to a module's status: the current one, then every update.
    Follow(String),
    /// The module's current status, once.
    Status(String),
    Hover(String),
    Leave,
    Click(String),
    /// Run the module's quick action, then publish its status.
    Action(String),
    /// A command the protocol does not know; it is logged and ignored.
    Unknown(String),
}

/// A request as values.
pub enum RequestView {
    Follow(Seq<char>),
    Status(Seq<char>),
    Hover(Seq<char>),
    Leave,
    Click(Seq<char>),
    Action(Seq<char>),
    Unknown(Seq<char>),
}

impl View for Request {
    type V = RequestView;

    open spec fn view(&self) -> RequestView {
        match self {
            Request::Follow(m) => RequestView::Follow(m@),
            Request::Status(m) => RequestView::Status(m@),
            Request::Hover(m) => RequestView::Hover(m@),
            Request::Leave => RequestView::Leave,
            Request::Click(m) => RequestView::Click(m@),
            Request::Action(m) => RequestView::Action(m@),
            Request::Unknown(c) => RequestView::Unknown(c@),
        }
    }
}

/// The request a line asks for: its first word is the command and its
/// second the module. An empty line, or a command that needs a module and
/// has none, asks for nothing.
pub open spec fn request_of(line: Seq<char>) -> Option<RequestView> {
    let w = words(trimmed(line));
    if w.len() == 0 {
        None
    } else {
        let c = w[0];
        if c == "leave"@ {
            Some(RequestView::Leave)
        } else if c != "follow"@ && c != "status"@ && c != "hover"@ && c != "click"@ && c != "action"@ {
            Some(RequestView::Unknown(c))
        } else if w.len() < 2 {
            None
        } else if c == "follow"@ {
            Some(RequestView::Follow(w[1]))
        } else if c == "status"@ {
            Some(RequestView::Status(w[1]))
        } else if c == "hover"@ {
            Some(RequestView::Hover(w[1]))
        } else if c == "click"@ {
            Some(RequestView::Click(w[1]))
        } else {
            Some(RequestView::Action(w[1]))
        }
    }
}

/// Reads one request line.
pub fn parse_request(line: &str) -> (r: Option<Request>)
    ensures
        match r {
            Some(q) => request_of(line@) == Some(q@),
            None => request_of(line@) is None,
        },
{
    let t = trim(line);
    let w = split_words(t.as_str());
    let ghost wv = strings_view(w@);
    if w.len() == 0 {
        return None;
    }
    assert(wv[0] == w@[0]@);
    let c = w[0].as_str();
    if str_eq(c, "leave") {
        return Some(Request::Leave);
    }
    let follow = str_eq(c, "follow");
    let status = str_eq(c, "status");
    let hover = str_eq(c, "hover");
    let click = str_eq(c, "click");
    let action = str_eq(c, "action");
    if !follow && !status && !hover && !click && !action {
        return Some(Request::Unknown(String::from_str(c)));
    }
    if w.len() < 2 {
        return None;
    }
    assert(wv[1] == w@[1]@);
    let m = String::from_str(w[1].as_str());
    if follow {
        Some(Request::Follow(m))
    } else if status {
        Some(Request::Status(m))
    } else if hover {
        Some(Request::Hover(m))
    } else if click {
        Some(Request::Click(m))
    } else {
        Some(Request::Action(m))
    }
}

} // verus!
