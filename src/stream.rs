//! The two sequences a call can produce: the events of a watch and the
//! items of a paginated list, each driven one step at a time.
use vstd::prelude::*;
use crate::client::{ResourceUrl, list_target, success_status, targets, is_success};
use crate::error::{CallError, DecodeError, DecodeStage};
use crate::frame::{FrameError, FrameSplitter, feed, views};
use crate::meta::opt_string_view;
use crate::request::{GroupVersionResource, ListOptions, RequestOptions, opt_view};

verus! {

/// Where a watch stands.
#[derive(Debug, Clone, Copy, PartialEq, Eq, Structural)]
pub enum WatchPhase {
    /// The request is sent; no response yet.
    AwaitingResponse,
    /// The response was a success; its body is being read.
    Streaming,
    /// The watch is over; nothing more is read.
    Finished,
}

/// A watch: the response status decides whether the body is read; the body
/// is split into lines, each decoded as one event, until the server ends
/// the body or a line fails to decode.
#[derive(Debug, Clone)]
pub struct WatchStream {
    phase: WatchPhase,
    splitter: FrameSplitter,
}

impl WatchStream {
    pub closed spec fn phase(&self) -> WatchPhase {
        self.phase
    }

    /// The bytes of the body received that do not yet form a line.
    pub closed spec fn pending(&self) -> Seq<u8> {
        self.splitter.pending()
    }

    /// A watch whose request was just sent.
    pub fn new() -> (r: WatchStream)
        ensures
            r.phase() == WatchPhase::AwaitingResponse,
            r.pending() == Seq::<u8>::empty(),
    {
        WatchStream { phase: WatchPhase::AwaitingResponse, splitter: FrameSplitter::new() }
    }

    /// True while lines are still to be read.
    pub fn is_streaming(&self) -> (r: bool)
        ensures
            r == (self.phase() == WatchPhase::Streaming),
    {
        self.phase == WatchPhase::Streaming
    }

    /// Takes the response status: true where the body is to be streamed;
    /// false where the watch fails, and the caller reads the whole body as
    /// a failure (see `failure_error`).
    pub fn on_status(&mut self, code: u16) -> (r: bool)
        requires
            old(self).phase() == WatchPhase::AwaitingResponse,
        ensures
            r == success_status(code),
            final(self).phase() == if r { WatchPhase::Streaming } else { WatchPhase::Finished },
            final(self).pending() == old(self).pending(),
    {
        if is_success(code) {
            self.phase = WatchPhase::Streaming;
            true
        } else {
            self.phase = WatchPhase::Finished;
            false
        }
    }

    /// Takes the next chunk of the body and returns the lines that it
    /// completes, to be decoded in order.
    pub fn on_chunk(&mut self, chunk: &[u8]) -> (r: Vec<Vec<u8>>)
        requires
            old(self).phase() == WatchPhase::Streaming,
        ensures
            final(self).phase() == WatchPhase::Streaming,
            (views(r@), final(self).pending()) == feed(old(self).pending(), chunk@),
    {
        self.splitter.push_chunk(chunk)
    }

    /// Takes the result of decoding one line: the event, or a decode error
    /// that ends the watch.
    pub fn on_line<T>(&mut self, decoded: Result<T, String>) -> (r: Result<T, CallError>)
        requires
            old(self).phase() == WatchPhase::Streaming,
        ensures
            match decoded {
                Ok(v) => r == Ok::<T, CallError>(v) && final(self).phase() == WatchPhase::Streaming,
                Err(m) => r == Err::<T, CallError>(CallError::Decode(DecodeError { stage: DecodeStage::WatchLine, message: m }))
                    && final(self).phase() == WatchPhase::Finished,
            },
            final(self).pending() == old(self).pending(),
    {
        match decoded {
            Ok(v) => Ok(v),
            Err(m) => {
                self.phase = WatchPhase::Finished;
                Err(CallError::Decode(DecodeError { stage: DecodeStage::WatchLine, message: m }))
            },
        }
    }

    /// Takes a failure of the transport while the body is read: the watch
    /// ends with that error.
    pub fn on_failure(&mut self, e: CallError) -> (r: CallError)
        ensures
            r == e,
            final(self).phase() == WatchPhase::Finished,
    {
        self.phase = WatchPhase::Finished;
        e
    }

    /// Takes the end of the body: the watch is over, with an error where
    /// the body stopped in the middle of a line.
    pub fn on_end(&mut self) -> (r: Result<(), CallError>)
        requires
            old(self).phase() == WatchPhase::Streaming,
        ensures
            final(self).phase() == WatchPhase::Finished,
            r is Ok <==> old(self).pending().len() == 0,
            r matches Err(e) ==> (e matches CallError::Frame(FrameError::Truncated(rest)) && rest@ == old(self).pending()),
    {
        self.phase = WatchPhase::Finished;
        match self.splitter.finish() {
            Ok(()) => Ok(()),
            Err(e) => Err(CallError::Frame(e)),
        }
    }
}

/// The items of a list across its pages: each page is requested once the
/// items of the one before are handed out, with the continuation token that
/// it returned, until a page returns none.
#[derive(Debug, Clone)]
pub struct Pager {
    pub resource: GroupVersionResource,
    pub namespace: Option<String>,
    pub options: ListOptions,
    pub done: bool,
}

/// The options of the next request of `p`; none once it is done.
pub open spec fn next_request(p: Pager) -> Option<ListOptions> {
    if p.done { None } else { Some(p.options) }
}

/// How a page with continuation `continuation` moves `before` to `after`:
/// a token is carried into the options of the next request; no token ends
/// the sequence.
pub open spec fn page_step(before: Pager, continuation: Option<String>, after: Pager) -> bool {
    &&& after.resource == before.resource
    &&& after.namespace == before.namespace
    &&& match continuation {
        Some(token) => !after.done && after.options == (ListOptions { continu: token, ..before.options }),
        None => after.done && after.options == before.options,
    }
}

/// A page without a continuation token ends the sequence: no request
/// follows it.
pub proof fn lemma_last_page_ends(before: Pager, after: Pager)
    requires
        page_step(before, None, after),
    ensures
        next_request(after) is None,
{
}

/// A page with a continuation token is followed by one more request, with
/// that token and the other options unchanged.
pub proof fn lemma_token_is_followed(before: Pager, token: String, after: Pager)
    requires
        !before.done,
        page_step(before, Some(token), after),
    ensures
        next_request(after) == Some(ListOptions { continu: token, ..before.options }),
{
}

impl Pager {
    /// A pager for the objects of `resource` in `namespace`, whose first
    /// request has the options `options`.
    pub fn new(resource: GroupVersionResource, namespace: Option<String>, options: ListOptions) -> (r: Pager)
        ensures
            r == (Pager { resource, namespace, options, done: false }),
    {
        Pager { resource, namespace, options, done: false }
    }

    /// The next page to request: none once the sequence has ended.
    pub fn next_target(&self) -> (r: Option<Result<ResourceUrl, CallError>>)
        ensures
            match next_request(*self) {
                None => r is None,
                Some(o) => r matches Some(Ok(t)) && targets(t, self.resource, opt_string_view(self.namespace), None, RequestOptions::List(o)),
            },
    {
        if self.done {
            None
        } else {
            let ns: Option<&str> = match &self.namespace {
                Some(s) => Some(s.as_str()),
                None => None,
            };
            assert(opt_view(ns) == opt_string_view(self.namespace));
            let o = self.options.duplicate();
            Some(list_target(&self.resource, ns, o))
        }
    }

    /// Takes a page: hands its items back, in the order the server gave
    /// them, and moves to the next page or to the end.
    pub fn on_page<T>(&mut self, items: Vec<T>, continuation: Option<String>) -> (r: Vec<T>)
        requires
            !old(self).done,
        ensures
            r == items,
            page_step(*old(self), continuation, *final(self)),
    {
        match continuation {
            Some(token) => {
                self.options.continu = token;
            },
            None => {
                self.done = true;
            },
        }
        items
    }

    /// Takes a failed page fetch: the sequence ends with its error.
    pub fn on_failure(&mut self, e: CallError) -> (r: CallError)
        ensures
            r == e,
            final(self).done,
            next_request(*final(self)) is None,
    {
        self.done = true;
        e
    }
}

} // verus!
