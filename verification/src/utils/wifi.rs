//! The wireless link as a state machine. The radio itself is driven from
//! outside: the relay is told what is about to be tried and how it went,
//! keeps the state of the link, and answers with the status that goes out to
//! the subscribers of the status stream.

use vstd::prelude::*;

verus! {

/// The state of the link.
#[derive(Debug, PartialEq, Eq, Structural, Clone, Copy)]
pub enum ConnectionState {
    Disconnected,
    Connecting,
    Connected,
    Reconnecting,
}

/// The link and all that was sent on its status stream.
pub struct LinkView {
    pub state: ConnectionState,
    pub sent: Seq<bool>,
}

/// The latest value of a status stream; a stream on which nothing was sent
/// yet says `false`.
pub open spec fn latest(sent: Seq<bool>) -> bool {
    if sent.len() == 0 {
        false
    } else {
        sent.last()
    }
}

/// The link once an attempt has been announced: connecting afresh or
/// reconnecting. If the link was up, the stream is told that it no longer is.
pub open spec fn attempting(link: LinkView, fresh: bool) -> LinkView {
    LinkView {
        state: if fresh {
            ConnectionState::Connecting
        } else {
            ConnectionState::Reconnecting
        },
        sent: if link.state == ConnectionState::Connected {
            link.sent.push(false)
        } else {
            link.sent
        },
    }
}

/// The link once an attempt has ended: up, and the stream is told so, or
/// down as the stream already says.
pub open spec fn attempted(link: LinkView, radio: Result<(), i32>) -> LinkView {
    match radio {
        Ok(_) => LinkView { state: ConnectionState::Connected, sent: link.sent.push(true) },
        Err(_) => LinkView {
            state: ConnectionState::Disconnected,
            sent: if link.state == ConnectionState::Connected {
                link.sent.push(false)
            } else {
                link.sent
            },
        },
    }
}

/// The link once the radio was asked to let go: down, and the stream is
/// told so, or unchanged where the radio refused.
pub open spec fn released(link: LinkView, radio: Result<(), i32>) -> LinkView {
    match radio {
        Ok(_) => LinkView { state: ConnectionState::Disconnected, sent: link.sent.push(false) },
        Err(_) => link,
    }
}

/// The stream agrees with the link: its latest value says whether the link
/// is up.
pub open spec fn in_sync(link: LinkView) -> bool {
    latest(link.sent) == (link.state == ConnectionState::Connected)
}

/// The owner of the link.
pub struct WifiRelay {
    state: ConnectionState,
    sent: Ghost<Seq<bool>>,
}

impl View for WifiRelay {
    type V = LinkView;

    closed spec fn view(&self) -> LinkView {
        LinkView { state: self.state, sent: self.sent@ }
    }
}

impl WifiRelay {
    #[verifier::type_invariant]
    spec fn synced(&self) -> bool {
        latest(self.sent@) == (self.state == ConnectionState::Connected)
    }

    /// A relay whose link is down and on whose stream nothing was sent.
    pub fn new() -> (r: Self)
        ensures
            r@.state == ConnectionState::Disconnected,
            r@.sent == Seq::<bool>::empty(),
    {
        WifiRelay { state: ConnectionState::Disconnected, sent: Ghost(Seq::empty()) }
    }

    /// The state of the link.
    pub fn state(&self) -> (r: ConnectionState)
        ensures
            r == self@.state,
            in_sync(self@),
    {
        proof {
            use_type_invariant(self);
        }
        self.state
    }

    /// Whether the link is up.
    pub fn is_connected(&self) -> (r: bool)
        ensures
            r == (self@.state == ConnectionState::Connected),
            r == latest(self@.sent),
    {
        proof {
            use_type_invariant(self);
        }
        self.state == ConnectionState::Connected
    }

    /// What a new subscriber of the status stream sees first: the latest
    /// value.
    pub fn get_reciver(&self) -> (r: bool)
        ensures
            r == latest(self@.sent),
    {
        self.is_connected()
    }

    /// Announces a first connection with full configuration. Answers with
    /// the status to send, if any.
    pub fn begin_connect(&mut self) -> (r: Option<bool>)
        ensures
            final(self)@ == attempting(old(self)@, true),
            r == if old(self)@.state == ConnectionState::Connected {
                Some(false)
            } else {
                None
            },
    {
        self.begin(true)
    }

    /// Announces a reconnection that keeps the configuration. Answers with
    /// the status to send, if any.
    pub fn begin_reconnect(&mut self) -> (r: Option<bool>)
        ensures
            final(self)@ == attempting(old(self)@, false),
            r == if old(self)@.state == ConnectionState::Connected {
                Some(false)
            } else {
                None
            },
    {
        self.begin(false)
    }

    fn begin(&mut self, fresh: bool) -> (r: Option<bool>)
        ensures
            final(self)@ == attempting(old(self)@, fresh),
            r == if old(self)@.state == ConnectionState::Connected {
                Some(false)
            } else {
                None
            },
    {
        proof {
            use_type_invariant(&*self);
        }
        let was_up = self.state == ConnectionState::Connected;
        let next = if fresh {
            ConnectionState::Connecting
        } else {
            ConnectionState::Reconnecting
        };
        let ghost sent = if was_up {
            self.sent@.push(false)
        } else {
            self.sent@
        };
        *self = WifiRelay { state: next, sent: Ghost(sent) };
        if was_up {
            Some(false)
        } else {
            None
        }
    }

    /// Takes in how the first connection went. On success the link is up
    /// and `true` is to be sent; on failure the radio's error is handed on.
    pub fn connect(&mut self, radio: Result<(), i32>) -> (r: Result<bool, i32>)
        ensures
            final(self)@ == attempted(old(self)@, radio),
            r == match radio {
                Ok(_) => Ok::<bool, i32>(true),
                Err(code) => Err(code),
            },
    {
        self.finish(radio)
    }

    /// Takes in how the reconnection went. On success the link is up and
    /// `true` is to be sent; on failure the radio's error is handed on and
    /// nothing is tried again.
    pub fn reconnect(&mut self, radio: Result<(), i32>) -> (r: Result<bool, i32>)
        ensures
            final(self)@ == attempted(old(self)@, radio),
            r == match radio {
                Ok(_) => Ok::<bool, i32>(true),
                Err(code) => Err(code),
            },
    {
        self.finish(radio)
    }

    fn finish(&mut self, radio: Result<(), i32>) -> (r: Result<bool, i32>)
        ensures
            final(self)@ == attempted(old(self)@, radio),
            r == match radio {
                Ok(_) => Ok::<bool, i32>(true),
                Err(code) => Err(code),
            },
    {
        proof {
            use_type_invariant(&*self);
        }
        match radio {
            Ok(_) => {
                let ghost sent = self.sent@.push(true);
                *self = WifiRelay { state: ConnectionState::Connected, sent: Ghost(sent) };
                Ok(true)
            },
            Err(code) => {
                let ghost sent = if self.state == ConnectionState::Connected {
                    self.sent@.push(false)
                } else {
                    self.sent@
                };
                *self = WifiRelay { state: ConnectionState::Disconnected, sent: Ghost(sent) };
                Err(code)
            },
        }
    }

    /// Takes in how letting go of the link went. On success the link is
    /// down and `false` is to be sent; on failure nothing changes and the
    /// radio's error is handed on.
    pub fn disconnect(&mut self, radio: Result<(), i32>) -> (r: Result<bool, i32>)
        ensures
            final(self)@ == released(old(self)@, radio),
            r == match radio {
                Ok(_) => Ok::<bool, i32>(false),
                Err(code) => Err(code),
            },
    {
        proof {
            use_type_invariant(&*self);
        }
        match radio {
            Ok(_) => {
                let ghost sent = self.sent@.push(false);
                *self = WifiRelay { state: ConnectionState::Disconnected, sent: Ghost(sent) };
                Ok(false)
            },
            Err(code) => Err(code),
        }
    }
}

/// One step of a delivery.
#[derive(Debug, PartialEq, Eq, Structural, Clone, Copy)]
pub enum DeliveryStep {
    /// Bring the link back up.
    Reconnect,
    /// Let the link settle for so many seconds.
    Settle(u64),
    /// Send the message.
    Send,
    /// Let go of the link again.
    Disconnect,
}

/// Seconds that a fresh link is given to settle.
pub const SETTLE_SECONDS: u64 = 3;

/// How a message is delivered, given what the link says of itself: over a
/// link that is up it is just sent; over one that is down the link is
/// brought up, left to settle, used and let go again; where the link cannot
/// say, nothing is done.
pub open spec fn plan_of(connected: Option<bool>) -> Seq<DeliveryStep> {
    match connected {
        Some(true) => seq![DeliveryStep::Send],
        Some(false) => seq![
            DeliveryStep::Reconnect,
            DeliveryStep::Settle(SETTLE_SECONDS),
            DeliveryStep::Send,
            DeliveryStep::Disconnect,
        ],
        None => Seq::<DeliveryStep>::empty(),
    }
}

/// Plans the delivery of one message.
pub fn delivery_plan(connected: Option<bool>) -> (r: Vec<DeliveryStep>)
    ensures
        r@ == plan_of(connected),
{
    let mut steps: Vec<DeliveryStep> = Vec::new();
    match connected {
        Some(true) => {
            steps.push(DeliveryStep::Send);
        },
        Some(false) => {
            steps.push(DeliveryStep::Reconnect);
            steps.push(DeliveryStep::Settle(SETTLE_SECONDS));
            steps.push(DeliveryStep::Send);
            steps.push(DeliveryStep::Disconnect);
        },
        None => {},
    }
    assert(steps@ =~= plan_of(connected));
    steps
}

/// Whatever is announced and however it goes, the stream stays in step
/// with the link.
pub proof fn lemma_stream_stays_in_sync(link: LinkView, fresh: bool, radio: Result<(), i32>)
    requires
        in_sync(link),
    ensures
        in_sync(attempting(link, fresh)),
        in_sync(attempted(link, radio)),
        in_sync(released(link, radio)),
{
}

/// After the link was let go it is down; after a reconnection that
/// succeeded it is up, and the stream has carried first `false`, then
/// `true`.
pub proof fn lemma_disconnect_then_reconnect(link: LinkView)
    ensures
        released(link, Ok(())).state == ConnectionState::Disconnected,
        latest(released(link, Ok(())).sent) == false,
        attempted(attempting(released(link, Ok(())), false), Ok(())).state
            == ConnectionState::Connected,
        attempted(attempting(released(link, Ok(())), false), Ok(())).sent == link.sent.push(
            false,
        ).push(true),
{
}

/// A reconnection that fails leaves the link down and sends nothing after
/// the link was let go.
pub proof fn lemma_failed_reconnect_stays_down(link: LinkView, code: i32)
    ensures
        attempted(attempting(released(link, Ok(())), false), Err(code)).state
            == ConnectionState::Disconnected,
        attempted(attempting(released(link, Ok(())), false), Err(code)).sent == link.sent.push(
            false,
        ),
{
}

} // verus!
