//! The settings for building an address and a mailbox: the channel between them and the
//! name of the actor.
use vstd::prelude::*;

verus! {

/// Default buffer size for the bounded channel between address and mailbox.
pub const BOUNDED: usize = 16;

/// The channel to make between address and mailbox.
pub enum ChannelPlan<Tx, Rx> {
    /// Use the channel that was provided.
    Given(Tx, Rx),
    /// Make a bounded channel with this buffer size.
    Bounded(usize),
    /// Make an unbounded channel.
    Unbounded,
}

/// Builder for address and mailbox. Mainly lets you set the channel and the name of the
/// actor. `Tx` and `Rx` are the two ends of a channel provided by the user.
pub struct ActorBuilder<Tx, Rx> {
    tx: Option<Tx>,
    rx: Option<Rx>,
    bounded: Option<usize>,
    bounded_set: bool,
    name: Option<String>,
}

impl<Tx, Rx> ActorBuilder<Tx, Rx> {
    /// The sending end of the channel provided.
    pub closed spec fn spec_tx(&self) -> Option<Tx> {
        self.tx
    }

    /// The receiving end of the channel provided.
    pub closed spec fn spec_rx(&self) -> Option<Rx> {
        self.rx
    }

    /// The buffer size of the default channel; `None` for an unbounded one.
    pub closed spec fn spec_bounded(&self) -> Option<usize> {
        self.bounded
    }

    /// Whether [`ActorBuilder::bounded`] was called.
    pub closed spec fn spec_bounded_set(&self) -> bool {
        self.bounded_set
    }

    /// Whether a name was set, and which.
    pub closed spec fn spec_name(&self) -> Option<Seq<char>> {
        match self.name {
            Some(n) => Some(n@),
            None => None,
        }
    }

    /// Create a new ActorBuilder with default settings.
    pub fn new() -> (res: Self)
        ensures
            res.spec_tx() is None,
            res.spec_rx() is None,
            res.spec_bounded() == Some(BOUNDED),
            !res.spec_bounded_set(),
            res.spec_name() is None,
    {
        Self::default()
    }

    /// Whether a channel was provided (either of its ends).
    pub fn has_channel(&self) -> (res: bool)
        ensures
            res == (self.spec_tx() is Some || self.spec_rx() is Some),
    {
        self.tx.is_some() || self.rx.is_some()
    }

    /// Whether [`ActorBuilder::bounded`] was called.
    pub fn bounded_was_set(&self) -> (res: bool)
        ensures
            res == self.spec_bounded_set(),
    {
        self.bounded_set
    }

    /// Configure a name for this actor. This will be helpful for interpreting debug logs.
    /// You can also retrieve the name later on the address.
    pub fn name(self, name: &str) -> (res: Self)
        ensures
            res.spec_name() == Some(name@),
            res.spec_tx() == self.spec_tx(),
            res.spec_rx() == self.spec_rx(),
            res.spec_bounded() == self.spec_bounded(),
            res.spec_bounded_set() == self.spec_bounded_set(),
    {
        ActorBuilder { name: Some(String::from_str(name)), ..self }
    }

    /// Choose the buffer size of the default channel. `None` gives an unbounded channel.
    /// This only works for the default channel: it panics (in debug builds) once a channel
    /// was provided with [`ActorBuilder::channel`].
    pub fn bounded(self, bounded: Option<usize>) -> (res: Self)
        requires
            self.spec_tx() is None,
            self.spec_rx() is None,
        ensures
            res.spec_bounded() == bounded,
            res.spec_bounded_set(),
            res.spec_tx() is None,
            res.spec_rx() is None,
            res.spec_name() == self.spec_name(),
    {
        ActorBuilder { bounded, bounded_set: true, ..self }
    }

    /// Set the channel to use between address and mailbox. This is incompatible with a
    /// bounded size: it panics (in debug builds) once [`ActorBuilder::bounded`] was called.
    pub fn channel(self, tx: Tx, rx: Rx) -> (res: Self)
        requires
            !self.spec_bounded_set(),
        ensures
            res.spec_tx() == Some(tx),
            res.spec_rx() == Some(rx),
            res.spec_bounded() == self.spec_bounded(),
            !res.spec_bounded_set(),
            res.spec_name() == self.spec_name(),
    {
        ActorBuilder { tx: Some(tx), rx: Some(rx), ..self }
    }

    /// What `build` makes: the channel to use (the one provided when both of its ends are,
    /// else a new bounded or unbounded one) and the name of the actor.
    pub fn plan(self) -> (res: (ChannelPlan<Tx, Rx>, Option<String>))
        ensures
            (self.spec_tx() is Some && self.spec_rx() is Some) ==> res.0 == ChannelPlan::Given(
                self.spec_tx()->0,
                self.spec_rx()->0,
            ),
            !(self.spec_tx() is Some && self.spec_rx() is Some) ==> match self.spec_bounded() {
                Some(n) => res.0 == ChannelPlan::<Tx, Rx>::Bounded(n),
                None => res.0 is Unbounded,
            },
            res.1 is None <==> self.spec_name() is None,
            res.1 matches Some(n) ==> self.spec_name() == Some(n@),
    {
        let ActorBuilder { tx, rx, bounded, bounded_set: _, name } = self;
        let plan = match (tx, rx) {
            (Some(t), Some(r)) => ChannelPlan::Given(t, r),
            _ => match bounded {
                Some(n) => ChannelPlan::Bounded(n),
                None => ChannelPlan::Unbounded,
            },
        };
        (plan, name)
    }
}

impl<Tx, Rx> Default for ActorBuilder<Tx, Rx> {
    fn default() -> (res: Self)
        ensures
            res.spec_tx() is None,
            res.spec_rx() is None,
            res.spec_bounded() == Some(BOUNDED),
            !res.spec_bounded_set(),
            res.spec_name() is None,
    {
        ActorBuilder { tx: None, rx: None, bounded: Some(BOUNDED), bounded_set: false, name: None }
    }
}

} // verus!
