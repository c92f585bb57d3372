//! The synchronous bridge over a callback-driven audio service.
//!
//! The native service only reports results through callbacks invoked while
//! a cooperative event loop is pumped, yet callers expect one blocking
//! call.  The bridge is the decision core of that call, made explicit as a
//! state machine: the platform glue creates a fresh event loop and
//! connection per call, then repeatedly polls the connection or the
//! outstanding operation, hands each observation to [`Session::step`], and
//! performs the action it is told — pump the loop once, submit the single
//! listing request, submit a write of the follow-up chain (for a volume
//! write: the level, then the mute-toggle hardware sync), or quit the
//! loop.
//! When the session completes, the glue reads the result cells through the
//! outcome functions, and tears the loop and connection down.  A session
//! never outlives its call and is never shared.

use vstd::prelude::*;

use crate::error::AccessFault;
use crate::error::CaptureFault;
use crate::error::EnumFault;
use crate::error::Error;
use crate::error::SetFault;

verus! {

/// The states a connection context reports while the event loop is pumped.
#[derive(Clone, Copy, Debug, PartialEq, Eq, Structural)]
pub enum ContextState {
    Unconnected,
    Connecting,
    Authorizing,
    SettingName,
    Ready,
    Failed,
    Terminated,
}

/// The states a submitted operation reports while it is polled.
#[derive(Clone, Copy, Debug, PartialEq, Eq, Structural)]
pub enum OperationState {
    Running,
    Done,
    Cancelled,
}

/// What the listing callback delivers for one sink: its backend-stable
/// identifier (`name`), its human-readable description, its index for
/// follow-up writes, its mute flag, the server-rendered average volume
/// text such as `b"42%"`, and whether one of its ports is active.
#[derive(Clone, Debug)]
pub struct SinkRecord {
    pub name: String,
    pub description: String,
    pub index: u32,
    pub mute: bool,
    pub volume_text: Vec<u8>,
    pub has_active_port: bool,
}

/// The one logical operation a session performs.
#[derive(Clone, Debug)]
pub enum Request {
    /// Collect every sink the service lists.
    ListDevices,
    /// Read the volume of the sink whose identifier is `target`.
    GetVolume { target: String },
    /// Write `percent` to the sink whose identifier is `target`.
    SetVolume { target: String, percent: u8 },
    /// Read the mute state of the sink whose identifier is `target`.
    GetMute { target: String },
    /// Write the mute state of the sink whose identifier is `target`.
    SetMute { target: String, mute: bool },
}

/// Does the request operate on a sink with this identifier?
pub open spec fn request_names(r: Request, name: Seq<char>) -> bool {
    match r {
        Request::ListDevices => false,
        Request::GetVolume { target } => target@ == name,
        Request::SetVolume { target, .. } => target@ == name,
        Request::GetMute { target } => target@ == name,
        Request::SetMute { target, .. } => target@ == name,
    }
}

/// The phase of one bridge call.
#[derive(Clone, Copy, Debug, PartialEq, Eq, Structural)]
pub enum Phase {
    /// The connection was submitted; its state is being polled.
    Connecting,
    /// The single listing request is outstanding; records arrive.
    Listing,
    /// The follow-up write of a set request is outstanding: the level
    /// write of a set-volume request, or the one mute write of a
    /// set-mute request.
    Applying,
    /// A set-volume request's level write completed; the mute-on write
    /// of the hardware-sync step is outstanding.
    SyncEngaging,
    /// The mute-off write that ends the hardware-sync toggle is
    /// outstanding (only for a non-zero target level).
    SyncReleasing,
    /// The call is over; only the result cells remain to be read.
    Complete,
}

/// What the bridge observes: a poll of the connection state, a record or
/// marker delivered by the listing callback, or a poll of the outstanding
/// operation's state.
#[derive(Clone, Debug)]
pub enum Event {
    Context(ContextState),
    Sink(SinkRecord),
    ListingEnded,
    ListingFailed,
    Operation(OperationState),
}

/// What the bridge asks the platform glue to do next.
#[derive(Clone, Copy, Debug, PartialEq, Eq, Structural)]
pub enum Action {
    /// Iterate the event loop once, without blocking.
    Pump,
    /// Submit the single listing request of this session.
    SubmitListing,
    /// Submit the one volume write of a set-volume session.
    SubmitVolumeWrite { index: u32, percent: u8 },
    /// Submit the one mute write of a set-mute session.
    SubmitMuteWrite { index: u32, mute: bool },
    /// Signal the event loop to quit with a zero return code.
    Quit,
}

/// One bridge call: the request, the phase, and the session-local cells
/// the callback writes and the draining step reads.
#[derive(Clone, Debug)]
pub struct Session {
    pub request: Request,
    pub phase: Phase,
    /// Every record delivered, for a listing request.
    pub sinks: Vec<SinkRecord>,
    /// The target's record, for a device request; its presence is the
    /// "changed" flag showing the target appeared during the listing.
    pub matched: Option<SinkRecord>,
    /// The error cell.
    pub fault: Option<Error>,
    /// Whether the follow-up write chain of a set request was entered:
    /// the level or mute write was submitted, and the session will not
    /// complete before the chain — sync toggle included — has run.
    pub applied: bool,
}

/// The request and every cell are unchanged.
pub open spec fn unchanged_core(pre: Session, post: Session) -> bool {
    &&& post.request == pre.request
    &&& post.sinks@ == pre.sinks@
    &&& post.matched == pre.matched
    &&& post.fault == pre.fault
    &&& post.applied == pre.applied
}

/// Nothing at all changed.
pub open spec fn stays(pre: Session, post: Session) -> bool {
    unchanged_core(pre, post) && post.phase == pre.phase
}

/// The session completed, with the error cell set to `e` and everything
/// else untouched.
pub open spec fn completes_with(pre: Session, post: Session, e: Error) -> bool {
    &&& post.request == pre.request
    &&& post.sinks@ == pre.sinks@
    &&& post.matched == pre.matched
    &&& post.applied == pre.applied
    &&& post.phase is Complete
    &&& post.fault == Some(e)
}

/// The session completed with every cell untouched.
pub open spec fn completes_keeping(pre: Session, post: Session) -> bool {
    unchanged_core(pre, post) && post.phase is Complete
}

/// The transition relation of the bridge: how one observed event takes the
/// session from `pre` to `post` and which action it demands.
pub open spec fn step_relation(pre: Session, ev: Event, post: Session, a: Action) -> bool {
    match pre.phase {
        Phase::Connecting => match ev {
            Event::Context(cs) => match cs {
                ContextState::Ready => {
                    unchanged_core(pre, post) && post.phase is Listing && a is SubmitListing
                },
                ContextState::Failed => {
                    completes_with(
                        pre,
                        post,
                        Error::DeviceAccessFailed(AccessFault::ConnectionFailed),
                    ) && a is Quit
                },
                ContextState::Terminated => {
                    completes_with(
                        pre,
                        post,
                        Error::DeviceAccessFailed(AccessFault::ConnectionTerminated),
                    ) && a is Quit
                },
                _ => stays(pre, post) && a is Pump,
            },
            _ => stays(pre, post) && a is Pump,
        },
        Phase::Listing => match ev {
            Event::Sink(rec) => {
                if pre.request is ListDevices {
                    &&& post.request == pre.request
                    &&& post.phase is Listing
                    &&& post.sinks@ == pre.sinks@.push(rec)
                    &&& post.matched == pre.matched
                    &&& post.fault == pre.fault
                    &&& post.applied == pre.applied
                    &&& a is Pump
                } else if request_names(pre.request, rec.name@) {
                    &&& post.request == pre.request
                    &&& post.phase is Listing
                    &&& post.sinks@ == pre.sinks@
                    &&& post.matched == Some(rec)
                    &&& post.fault == pre.fault
                    &&& post.applied == pre.applied
                    &&& a is Pump
                } else {
                    stays(pre, post) && a is Pump
                }
            },
            Event::ListingEnded => stays(pre, post) && a is Pump,
            Event::ListingFailed => {
                let e = if pre.request is ListDevices {
                    Error::DeviceEnumerationFailed(EnumFault::ProbeFailed)
                } else {
                    Error::VolumeCaptureFailed(CaptureFault::ListingFailed)
                };
                &&& post.request == pre.request
                &&& post.phase is Listing
                &&& post.sinks@ == pre.sinks@
                &&& post.matched == pre.matched
                &&& post.fault == Some(e)
                &&& post.applied == pre.applied
                &&& a is Pump
            },
            Event::Operation(os) => {
                if os is Running {
                    stays(pre, post) && a is Pump
                } else {
                    match pre.request {
                        Request::SetVolume { target: _, percent } => match pre.matched {
                            Some(rec) => {
                                &&& post.request == pre.request
                                &&& post.phase is Applying
                                &&& post.sinks@ == pre.sinks@
                                &&& post.matched == pre.matched
                                &&& post.fault == pre.fault
                                &&& post.applied
                                &&& a == (Action::SubmitVolumeWrite {
                                    index: rec.index,
                                    percent: percent,
                                })
                            },
                            None => completes_keeping(pre, post) && a is Quit,
                        },
                        Request::SetMute { target: _, mute } => match pre.matched {
                            Some(rec) => {
                                &&& post.request == pre.request
                                &&& post.phase is Applying
                                &&& post.sinks@ == pre.sinks@
                                &&& post.matched == pre.matched
                                &&& post.fault == pre.fault
                                &&& post.applied
                                &&& a == (Action::SubmitMuteWrite { index: rec.index, mute: mute })
                            },
                            None => completes_keeping(pre, post) && a is Quit,
                        },
                        _ => completes_keeping(pre, post) && a is Quit,
                    }
                }
            },
            Event::Context(_) => stays(pre, post) && a is Pump,
        },
        Phase::Applying => match ev {
            Event::Operation(os) => {
                if os is Running {
                    stays(pre, post) && a is Pump
                } else {
                    match pre.request {
                        Request::SetVolume { .. } => match pre.matched {
                            Some(rec) => {
                                &&& unchanged_core(pre, post)
                                &&& post.phase is SyncEngaging
                                &&& a == (Action::SubmitMuteWrite { index: rec.index, mute: true })
                            },
                            None => completes_keeping(pre, post) && a is Quit,
                        },
                        _ => completes_keeping(pre, post) && a is Quit,
                    }
                }
            },
            _ => stays(pre, post) && a is Pump,
        },
        Phase::SyncEngaging => match ev {
            Event::Operation(os) => {
                if os is Running {
                    stays(pre, post) && a is Pump
                } else {
                    match pre.request {
                        Request::SetVolume { target: _, percent } => {
                            if percent == 0 {
                                completes_keeping(pre, post) && a is Quit
                            } else {
                                match pre.matched {
                                    Some(rec) => {
                                        &&& unchanged_core(pre, post)
                                        &&& post.phase is SyncReleasing
                                        &&& a == (Action::SubmitMuteWrite {
                                            index: rec.index,
                                            mute: false,
                                        })
                                    },
                                    None => completes_keeping(pre, post) && a is Quit,
                                }
                            }
                        },
                        _ => completes_keeping(pre, post) && a is Quit,
                    }
                }
            },
            _ => stays(pre, post) && a is Pump,
        },
        Phase::SyncReleasing => match ev {
            Event::Operation(os) => {
                if os is Running {
                    stays(pre, post) && a is Pump
                } else {
                    completes_keeping(pre, post) && a is Quit
                }
            },
            _ => stays(pre, post) && a is Pump,
        },
        Phase::Complete => stays(pre, post) && a is Quit,
    }
}

impl Session {
    /// What holds of a session throughout one call.
    pub open spec fn inv(self) -> bool {
        &&& (self.phase is Connecting ==> self.sinks@.len() == 0 && self.matched is None
            && self.fault is None && !self.applied)
        &&& (self.matched matches Some(rec) ==> request_names(self.request, rec.name@))
        &&& (self.request is ListDevices ==> self.matched is None && !self.applied)
        &&& (self.request is GetVolume ==> !self.applied)
        &&& (self.request is GetMute ==> !self.applied)
        &&& (self.applied ==> !(self.phase is Connecting) && !(self.phase is Listing))
        &&& (self.phase is Applying ==> self.applied && self.matched is Some && (self.request
            is SetVolume || self.request is SetMute))
        &&& (self.phase is SyncEngaging ==> self.applied && self.matched is Some && self.request
            is SetVolume)
        &&& (self.phase is SyncReleasing ==> self.applied && self.matched is Some && self.request
            is SetVolume)
        &&& (!(self.request is ListDevices) ==> self.sinks@.len() == 0)
    }

    /// A fresh session for one request: connecting, with every cell empty.
    pub fn new(request: Request) -> (s: Session)
        ensures
            s.request == request,
            s.phase is Connecting,
            s.sinks@.len() == 0,
            s.matched is None,
            s.fault is None,
            !s.applied,
            s.inv(),
    {
        Session {
            request,
            phase: Phase::Connecting,
            sinks: Vec::new(),
            matched: None,
            fault: None,
            applied: false,
        }
    }

    /// Whether the call is over and the result cells may be drained.
    pub fn complete(&self) -> (b: bool)
        ensures
            b == (self.phase is Complete),
    {
        match self.phase {
            Phase::Complete => true,
            _ => false,
        }
    }

    /// Feed one observed event to the session and learn what to do next.
    pub fn step(&mut self, ev: Event) -> (a: Action)
        ensures
            step_relation(*old(self), ev, *final(self), a),
            old(self).inv() ==> final(self).inv(),
    {
        match self.phase {
            Phase::Connecting => match ev {
                Event::Context(cs) => match cs {
                    ContextState::Ready => {
                        self.phase = Phase::Listing;
                        Action::SubmitListing
                    },
                    ContextState::Failed => {
                        self.phase = Phase::Complete;
                        self.fault = Some(
                            Error::DeviceAccessFailed(AccessFault::ConnectionFailed),
                        );
                        Action::Quit
                    },
                    ContextState::Terminated => {
                        self.phase = Phase::Complete;
                        self.fault = Some(
                            Error::DeviceAccessFailed(AccessFault::ConnectionTerminated),
                        );
                        Action::Quit
                    },
                    _ => Action::Pump,
                },
                _ => Action::Pump,
            },
            Phase::Listing => match ev {
                Event::Sink(rec) => {
                    let mut for_target = false;
                    match &self.request {
                        Request::ListDevices => {},
                        Request::GetVolume { target } => {
                            if rec.name == *target {
                                for_target = true;
                            }
                        },
                        Request::SetVolume { target, .. } => {
                            if rec.name == *target {
                                for_target = true;
                            }
                        },
                        Request::GetMute { target } => {
                            if rec.name == *target {
                                for_target = true;
                            }
                        },
                        Request::SetMute { target, .. } => {
                            if rec.name == *target {
                                for_target = true;
                            }
                        },
                    }
                    let is_listing = matches!(self.request, Request::ListDevices);
                    if is_listing {
                        self.sinks.push(rec);
                    } else if for_target {
                        self.matched = Some(rec);
                    }
                    Action::Pump
                },
                Event::ListingEnded => Action::Pump,
                Event::ListingFailed => {
                    let is_listing = matches!(self.request, Request::ListDevices);
                    if is_listing {
                        self.fault = Some(Error::DeviceEnumerationFailed(EnumFault::ProbeFailed));
                    } else {
                        self.fault = Some(Error::VolumeCaptureFailed(CaptureFault::ListingFailed));
                    }
                    Action::Pump
                },
                Event::Operation(os) => match os {
                    OperationState::Running => Action::Pump,
                    _ => {
                        let mut write: Option<Action> = None;
                        match (&self.request, &self.matched) {
                            (Request::SetVolume { target: _, percent }, Some(rec)) => {
                                write = Some(
                                    Action::SubmitVolumeWrite {
                                        index: rec.index,
                                        percent: *percent,
                                    },
                                );
                            },
                            (Request::SetMute { target: _, mute }, Some(rec)) => {
                                write = Some(
                                    Action::SubmitMuteWrite { index: rec.index, mute: *mute },
                                );
                            },
                            _ => {},
                        }
                        match write {
                            Some(a) => {
                                self.phase = Phase::Applying;
                                self.applied = true;
                                a
                            },
                            None => {
                                self.phase = Phase::Complete;
                                Action::Quit
                            },
                        }
                    },
                },
                Event::Context(_) => Action::Pump,
            },
            Phase::Applying => match ev {
                Event::Operation(os) => match os {
                    OperationState::Running => Action::Pump,
                    _ => {
                        let mut sync: Option<Action> = None;
                        match (&self.request, &self.matched) {
                            (Request::SetVolume { .. }, Some(rec)) => {
                                sync = Some(
                                    Action::SubmitMuteWrite { index: rec.index, mute: true },
                                );
                            },
                            _ => {},
                        }
                        match sync {
                            Some(a) => {
                                self.phase = Phase::SyncEngaging;
                                a
                            },
                            None => {
                                self.phase = Phase::Complete;
                                Action::Quit
                            },
                        }
                    },
                },
                _ => Action::Pump,
            },
            Phase::SyncEngaging => match ev {
                Event::Operation(os) => match os {
                    OperationState::Running => Action::Pump,
                    _ => {
                        let mut release: Option<Action> = None;
                        match (&self.request, &self.matched) {
                            (Request::SetVolume { target: _, percent }, Some(rec)) => {
                                if *percent != 0 {
                                    release = Some(
                                        Action::SubmitMuteWrite { index: rec.index, mute: false },
                                    );
                                }
                            },
                            _ => {},
                        }
                        match release {
                            Some(a) => {
                                self.phase = Phase::SyncReleasing;
                                a
                            },
                            None => {
                                self.phase = Phase::Complete;
                                Action::Quit
                            },
                        }
                    },
                },
                _ => Action::Pump,
            },
            Phase::SyncReleasing => match ev {
                Event::Operation(os) => match os {
                    OperationState::Running => Action::Pump,
                    _ => {
                        self.phase = Phase::Complete;
                        Action::Quit
                    },
                },
                _ => Action::Pump,
            },
            Phase::Complete => Action::Quit,
        }
    }
}

/// A byte is an ASCII space.
pub open spec fn is_space(b: u8) -> bool {
    b == 32
}

/// A byte is an ASCII decimal digit.
pub open spec fn is_digit(b: u8) -> bool {
    48 <= b <= 57
}

/// The text with its leading spaces removed.
pub open spec fn trim_start(s: Seq<u8>) -> Seq<u8>
    decreases s.len(),
{
    if s.len() > 0 && is_space(s[0]) {
        trim_start(s.drop_first())
    } else {
        s
    }
}

/// The text with its trailing spaces removed.
pub open spec fn trim_end(s: Seq<u8>) -> Seq<u8>
    decreases s.len(),
{
    if s.len() > 0 && is_space(s.last()) {
        trim_end(s.drop_last())
    } else {
        s
    }
}

/// The text with surrounding spaces removed.
pub open spec fn trimmed(s: Seq<u8>) -> Seq<u8> {
    trim_end(trim_start(s))
}

/// Every byte is a digit.
pub open spec fn all_digits(s: Seq<u8>) -> bool {
    forall|i: int| 0 <= i < s.len() ==> is_digit(#[trigger] s[i])
}

/// The number a digit string denotes.
pub open spec fn digits_value(s: Seq<u8>) -> int
    decreases s.len(),
{
    if s.len() == 0 {
        0
    } else {
        digits_value(s.drop_last()) * 10 + (s.last() - 48)
    }
}

/// The percentage a server-rendered volume text denotes: after trimming,
/// one or more digits followed by a percent sign, denoting a value that
/// fits in a byte.  Anything else denotes nothing.
pub open spec fn percent_text_value(s: Seq<u8>) -> Option<u8> {
    let t = trimmed(s);
    if t.len() >= 2 && t.last() == 37 && all_digits(t.drop_last()) && digits_value(t.drop_last())
        <= 255 {
        Some(digits_value(t.drop_last()) as u8)
    } else {
        None
    }
}

proof fn lemma_digits_nonneg(s: Seq<u8>)
    requires
        all_digits(s),
    ensures
        digits_value(s) >= 0,
    decreases s.len(),
{
    if s.len() > 0 {
        assert(is_digit(s[s.len() - 1]));
        assert(all_digits(s.drop_last()));
        lemma_digits_nonneg(s.drop_last());
    }
}

proof fn lemma_digits_prefix(s: Seq<u8>, i: int)
    requires
        all_digits(s),
        0 <= i <= s.len(),
    ensures
        digits_value(s.subrange(0, i)) <= digits_value(s),
    decreases s.len() - i,
{
    if i == s.len() {
        assert(s.subrange(0, i) =~= s);
    } else {
        let shorter = s.drop_last();
        assert(all_digits(shorter));
        assert(shorter.subrange(0, i) =~= s.subrange(0, i));
        lemma_digits_prefix(shorter, i);
        lemma_digits_nonneg(shorter);
        assert(is_digit(s[s.len() - 1]));
    }
}

/// Parse a server-rendered volume text such as `b" 42%"`.
pub fn parse_percent(text: &Vec<u8>) -> (r: Option<u8>)
    ensures
        r == percent_text_value(text@),
{
    let len = text.len();
    let mut lo: usize = 0;
    proof {
        assert(text@.subrange(0, len as int) =~= text@);
    }
    while lo < len && text[lo] == 32
        invariant
            0 <= lo <= len == text@.len(),
            trim_start(text@) == trim_start(text@.subrange(lo as int, len as int)),
        decreases len - lo,
    {
        proof {
            let cur = text@.subrange(lo as int, len as int);
            assert(cur[0] == text@[lo as int]);
            assert(is_space(cur[0]));
            assert(cur.drop_first() =~= text@.subrange(lo + 1, len as int));
        }
        lo = lo + 1;
    }
    proof {
        let cur = text@.subrange(lo as int, len as int);
        if lo < len {
            assert(cur[0] == text@[lo as int]);
            assert(!is_space(cur[0]));
        }
        assert(trim_start(text@) == cur);
    }
    let mut hi: usize = len;
    while hi > lo && text[hi - 1] == 32
        invariant
            0 <= lo <= hi <= len == text@.len(),
            trim_end(text@.subrange(lo as int, len as int)) == trim_end(
                text@.subrange(lo as int, hi as int),
            ),
        decreases hi,
    {
        proof {
            let cur = text@.subrange(lo as int, hi as int);
            assert(cur.last() == text@[hi - 1]);
            assert(is_space(cur.last()));
            assert(cur.drop_last() =~= text@.subrange(lo as int, hi - 1));
        }
        hi = hi - 1;
    }
    let ghost t = trimmed(text@);
    proof {
        let cur = text@.subrange(lo as int, hi as int);
        if hi > lo {
            assert(cur.last() == text@[hi - 1]);
            assert(!is_space(cur.last()));
        }
        assert(t == cur);
    }
    if hi - lo < 2 {
        return None;
    }
    if text[hi - 1] != 37 {
        proof {
            assert(t.last() == text@[hi - 1]);
        }
        return None;
    }
    let ghost digits = text@.subrange(lo as int, hi - 1);
    proof {
        assert(t.last() == text@[hi - 1]);
        assert(t.drop_last() =~= digits);
    }
    let mut value: u32 = 0;
    let mut i: usize = lo;
    while i < hi - 1
        invariant
            lo <= i <= hi - 1 < len == text@.len(),
            2 <= hi - lo,
            trimmed(text@) == text@.subrange(lo as int, hi as int),
            trimmed(text@).last() == 37,
            digits == text@.subrange(lo as int, hi - 1),
            digits == trimmed(text@).drop_last(),
            all_digits(text@.subrange(lo as int, i as int)),
            value == digits_value(text@.subrange(lo as int, i as int)),
            value <= 255,
        decreases hi - i,
    {
        let b = text[i];
        proof {
            assert(text@.subrange(lo as int, i + 1).drop_last() =~= text@.subrange(
                lo as int,
                i as int,
            ));
            assert(text@.subrange(lo as int, i + 1).last() == text@[i as int]);
        }
        if b < 48 || b > 57 {
            proof {
                assert(digits[i - lo] == text@[i as int]);
                assert(!is_digit(digits[i - lo]));
            }
            return None;
        }
        value = value * 10 + (b - 48) as u32;
        if value > 255 {
            proof {
                if all_digits(digits) {
                    assert(digits.subrange(0, i + 1 - lo) =~= text@.subrange(lo as int, i + 1));
                    lemma_digits_prefix(digits, i + 1 - lo);
                }
            }
            return None;
        }
        i = i + 1;
    }
    proof {
        assert(text@.subrange(lo as int, i as int) =~= digits);
    }
    Some(value as u8)
}

impl Session {
    /// Drain a completed listing session: the identifier and description
    /// of every sink the service listed, or the error the callback left in
    /// the error cell.
    pub fn identifiers_outcome(&self) -> (r: Result<Vec<(String, String)>, Error>)
        requires
            self.phase is Complete,
            self.request is ListDevices,
        ensures
            self.fault matches Some(e) ==> r == Err::<Vec<(String, String)>, Error>(e),
            self.fault is None ==> (r matches Ok(ids) && ids@.len() == self.sinks@.len() && (forall|
                i: int,
            |
                0 <= i < ids@.len() ==> (#[trigger] ids@[i]).0 == self.sinks@[i].name && ids@[i].1
                    == self.sinks@[i].description)),
    {
        match self.fault {
            Some(e) => Err(e),
            None => {
                let mut ids: Vec<(String, String)> = Vec::new();
                let mut i: usize = 0;
                while i < self.sinks.len()
                    invariant
                        0 <= i <= self.sinks@.len(),
                        ids@.len() == i,
                        forall|j: int|
                            0 <= j < i ==> (#[trigger] ids@[j]).0 == self.sinks@[j].name
                                && ids@[j].1 == self.sinks@[j].description,
                    decreases self.sinks@.len() - i,
                {
                    ids.push(
                        (self.sinks[i].name.clone(), self.sinks[i].description.clone()),
                    );
                    i = i + 1;
                }
                Ok(ids)
            },
        }
    }

    /// Drain a completed volume read: the error cell wins; a target that
    /// never appeared in the listing is the transient vanished-device
    /// race; a muted sink reads as zero without consulting its level; and
    /// otherwise the server-rendered volume text is parsed.
    pub fn volume_outcome(&self) -> (r: Result<u8, Error>)
        requires
            self.phase is Complete,
            self.request is GetVolume,
        ensures
            self.fault matches Some(e) ==> r == Err::<u8, Error>(e),
            self.fault is None && self.matched is None ==> r == Err::<u8, Error>(
                Error::DeviceAccessFailed(AccessFault::DeviceVanished),
            ),
            self.matched matches Some(rec) ==> (self.fault is None && rec.mute ==> r == Ok::<
                u8,
                Error,
            >(0u8)),
            self.matched matches Some(rec) ==> (self.fault is None && !rec.mute ==> r == (
            match percent_text_value(rec.volume_text@) {
                Some(p) => Ok::<u8, Error>(p),
                None => Err::<u8, Error>(Error::VolumeCaptureFailed(CaptureFault::MalformedVolume)),
            })),
    {
        match self.fault {
            Some(e) => Err(e),
            None => match &self.matched {
                None => Err(Error::DeviceAccessFailed(AccessFault::DeviceVanished)),
                Some(rec) => {
                    if rec.mute {
                        Ok(0)
                    } else {
                        match parse_percent(&rec.volume_text) {
                            Some(p) => Ok(p),
                            None => Err(
                                Error::VolumeCaptureFailed(CaptureFault::MalformedVolume),
                            ),
                        }
                    }
                },
            },
        }
    }

    /// Drain a completed mute read.
    pub fn mute_outcome(&self) -> (r: Result<bool, Error>)
        requires
            self.phase is Complete,
            self.request is GetMute,
        ensures
            self.fault matches Some(e) ==> r == Err::<bool, Error>(e),
            self.fault is None && self.matched is None ==> r == Err::<bool, Error>(
                Error::DeviceAccessFailed(AccessFault::DeviceVanished),
            ),
            self.matched matches Some(rec) ==> (self.fault is None ==> r == Ok::<bool, Error>(
                rec.mute,
            )),
    {
        match self.fault {
            Some(e) => Err(e),
            None => match &self.matched {
                None => Err(Error::DeviceAccessFailed(AccessFault::DeviceVanished)),
                Some(rec) => Ok(rec.mute),
            },
        }
    }

    /// Drain a completed set request: the error cell wins; a vanished
    /// target is reported; otherwise the call succeeded exactly when the
    /// follow-up write chain was entered and, the session being complete,
    /// ran to its end.
    pub fn apply_outcome(&self) -> (r: Result<(), Error>)
        requires
            self.phase is Complete,
            self.request is SetVolume || self.request is SetMute,
        ensures
            self.fault matches Some(e) ==> r == Err::<(), Error>(e),
            self.fault is None && self.matched is None ==> r == Err::<(), Error>(
                Error::DeviceAccessFailed(AccessFault::DeviceVanished),
            ),
            self.fault is None && self.matched is Some && self.applied ==> r == Ok::<(), Error>(()),
            self.fault is None && self.matched is Some && !self.applied ==> r == Err::<(), Error>(
                Error::VolumeSetFailed(SetFault::NotApplied),
            ),
    {
        match self.fault {
            Some(e) => Err(e),
            None => match &self.matched {
                None => Err(Error::DeviceAccessFailed(AccessFault::DeviceVanished)),
                Some(_) => {
                    if self.applied {
                        Ok(())
                    } else {
                        Err(Error::VolumeSetFailed(SetFault::NotApplied))
                    }
                },
            },
        }
    }
}

/// The order in which the phases of a call may occur.
pub open spec fn phase_rank(p: Phase) -> int {
    match p {
        Phase::Connecting => 0,
        Phase::Listing => 1,
        Phase::Applying => 2,
        Phase::SyncEngaging => 3,
        Phase::SyncReleasing => 4,
        Phase::Complete => 5,
    }
}

/// The at-most-one-outstanding-operation law: a step never moves the
/// session backwards, and a submission happens only on a specific strict
/// forward move — the listing request only on the step from Connecting to
/// Listing, and each write only on one of the three write edges: the
/// level or mute write on Listing to Applying, the sync mute-on write on
/// Applying to SyncEngaging, and the sync mute-off write on SyncEngaging
/// to SyncReleasing.  Since phases never decrease, each edge is taken at
/// most once per run, and every write is submitted only on an event
/// showing the previous operation no longer running — so at most one
/// operation is ever outstanding.
pub proof fn lemma_single_submission(pre: Session, ev: Event, post: Session, a: Action)
    requires
        step_relation(pre, ev, post, a),
    ensures
        phase_rank(post.phase) >= phase_rank(pre.phase),
        a is SubmitListing <==> (pre.phase is Connecting && post.phase is Listing),
        (a is SubmitVolumeWrite || a is SubmitMuteWrite) <==> ((pre.phase is Listing
            && post.phase is Applying) || (pre.phase is Applying && post.phase is SyncEngaging) || (
        pre.phase is SyncEngaging && post.phase is SyncReleasing)),
{
}

/// One recorded step of a session run: the observed event, the session
/// it produced, and the action it demanded.
pub struct RunStep {
    pub event: Event,
    pub session: Session,
    pub action: Action,
}

/// The session in force before step `i` of a run: the initial session,
/// or what the previous step produced.
pub open spec fn session_before(init: Session, steps: Seq<RunStep>, i: int) -> Session {
    if i == 0 {
        init
    } else {
        steps[i - 1].session
    }
}

/// A recorded run: every step follows the transition relation from the
/// session in force before it.
pub open spec fn is_run(init: Session, steps: Seq<RunStep>) -> bool {
    forall|i: int|
        0 <= i < steps.len() ==> step_relation(
            session_before(init, steps, i),
            (#[trigger] steps[i]).event,
            steps[i].session,
            steps[i].action,
        )
}

/// How many listing submissions a run demanded.
pub open spec fn listing_submissions(steps: Seq<RunStep>) -> int
    decreases steps.len(),
{
    if steps.len() == 0 {
        0
    } else {
        listing_submissions(steps.drop_last()) + (if steps.last().action is SubmitListing {
            1int
        } else {
            0int
        })
    }
}

/// How many follow-up write submissions a run demanded.
pub open spec fn write_submissions(steps: Seq<RunStep>) -> int
    decreases steps.len(),
{
    if steps.len() == 0 {
        0
    } else {
        write_submissions(steps.drop_last()) + (
        if steps.last().action is SubmitVolumeWrite || steps.last().action is SubmitMuteWrite {
            1int
        } else {
            0int
        })
    }
}

/// The single-submission run law: over any run of a fresh session, the
/// one listing request is submitted exactly once by the time the session
/// is listing; each phase of the write chain accounts for exactly one
/// further write — the level or mute write, then the sync mute-on, then
/// the sync mute-off; no writes ever happen without the listing; and no
/// run submits more than one listing or more than the three chain writes.
#[verifier::rlimit(60)]
pub proof fn lemma_run_submissions(init: Session, steps: Seq<RunStep>)
    requires
        init.phase is Connecting,
        is_run(init, steps),
    ensures
        ({
            let ending = session_before(init, steps, steps.len() as int);
            &&& (ending.phase is Connecting ==> listing_submissions(steps) == 0
                && write_submissions(steps) == 0)
            &&& (ending.phase is Listing ==> listing_submissions(steps) == 1 && write_submissions(
                steps,
            ) == 0)
            &&& (ending.phase is Applying ==> listing_submissions(steps) == 1 && write_submissions(
                steps,
            ) == 1)
            &&& (ending.phase is SyncEngaging ==> listing_submissions(steps) == 1
                && write_submissions(steps) == 2)
            &&& (ending.phase is SyncReleasing ==> listing_submissions(steps) == 1
                && write_submissions(steps) == 3)
            &&& listing_submissions(steps) <= 1
            &&& write_submissions(steps) <= 3
            &&& (listing_submissions(steps) == 0 ==> write_submissions(steps) == 0)
        }),
    decreases steps.len(),
{
    if steps.len() > 0 {
        let prefix = steps.drop_last();
        assert forall|i: int| 0 <= i < prefix.len() implies step_relation(
            session_before(init, prefix, i),
            (#[trigger] prefix[i]).event,
            prefix[i].session,
            prefix[i].action,
        ) by {
            assert(prefix[i] == steps[i]);
            assert(session_before(init, prefix, i) == session_before(init, steps, i));
            assert(step_relation(
                session_before(init, steps, i),
                steps[i].event,
                steps[i].session,
                steps[i].action,
            ));
        }
        lemma_run_submissions(init, prefix);
        let prior = session_before(init, steps, steps.len() - 1);
        assert(session_before(init, prefix, prefix.len() as int) == prior);
        assert(step_relation(prior, steps.last().event, steps.last().session, steps.last().action));
        lemma_single_submission(
            prior,
            steps.last().event,
            steps.last().session,
            steps.last().action,
        );
    }
}

/// The fail-fast connection law: a connection that reports Failed or
/// Terminated while the bridge is connecting completes the session at
/// once, with the connection error in the error cell and the loop told to
/// quit — the call surfaces `DeviceAccessFailed` instead of pumping on.
pub proof fn lemma_connection_failure_completes(
    pre: Session,
    cs: ContextState,
    post: Session,
    a: Action,
)
    requires
        pre.phase is Connecting,
        cs is Failed || cs is Terminated,
        step_relation(pre, Event::Context(cs), post, a),
    ensures
        post.phase is Complete,
        a is Quit,
        post.fault matches Some(e) && e matches Error::DeviceAccessFailed(_),
{
}

} // verus!
