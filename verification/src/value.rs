//! One-shot value channels.
//!
//! A sender hands a single value to its receiver, usually across
//! threads: the registration side sends the opened device files, and the
//! handles pick them up on first use.  The receiver caches the value
//! once it has arrived; every later access returns the same value.

use vstd::prelude::*;

verus! {

#[verifier::external_type_specification]
#[verifier::external_body]
#[verifier::reject_recursive_types(T)]
/// Declaration of the standard library's channel sender.
pub struct ExMpscSender<T>(std::sync::mpsc::Sender<T>);

#[verifier::external_type_specification]
#[verifier::external_body]
#[verifier::reject_recursive_types(T)]
/// Declaration of the standard library's channel receiver.
pub struct ExMpscReceiver<T>(std::sync::mpsc::Receiver<T>);

/// Value was already sent.
#[derive(Debug, Clone, Copy, PartialEq, Eq, Structural)]
pub struct AlreadySentError;

/// Value channel receive error.
#[derive(Debug, Clone, Copy, PartialEq, Eq, Structural)]
pub enum RecvError {
    /// Value was not yet sent.
    Empty,
    /// Sender was dropped without sending a value.
    Disconnected,
    /// Value was taken.
    Taken,
}

impl RecvError {
    /// Human-readable description of the failure.
    pub fn message(&self) -> (r: String)
        ensures
            *self == RecvError::Empty ==> r@ == "value was not yet sent"@,
            *self == RecvError::Disconnected ==> r@ == "no value was sent"@,
            *self == RecvError::Taken ==> r@ == "value was taken"@,
    {
        match self {
            RecvError::Empty => String::from_str("value was not yet sent"),
            RecvError::Disconnected => String::from_str("no value was sent"),
            RecvError::Taken => String::from_str("value was taken"),
        }
    }
}

/// Relies on std::sync::mpsc::channel: a connected sender and receiver
/// pair.
#[verifier::external_body]
fn mpsc_channel<T>() -> (r: (std::sync::mpsc::Sender<T>, std::sync::mpsc::Receiver<T>)) {
    std::sync::mpsc::channel()
}

/// Relies on std::sync::mpsc::Sender::send: hands the value to the
/// channel; the value is lost when the receiver is gone.
#[verifier::external_body]
fn mpsc_send<T>(tx: &std::sync::mpsc::Sender<T>, value: T) -> (r: bool) {
    tx.send(value).is_ok()
}

/// Relies on std::sync::mpsc::Receiver::try_recv: a value if one is
/// waiting; otherwise the channel is empty or disconnected.
#[verifier::external_body]
fn mpsc_try_recv<T>(rx: &std::sync::mpsc::Receiver<T>) -> (r: Result<T, RecvError>)
    ensures
        r is Err ==> r->Err_0 == RecvError::Empty || r->Err_0 == RecvError::Disconnected,
{
    match rx.try_recv() {
        Ok(value) => Ok(value),
        Err(std::sync::mpsc::TryRecvError::Empty) => Err(RecvError::Empty),
        Err(std::sync::mpsc::TryRecvError::Disconnected) => Err(RecvError::Disconnected),
    }
}

/// Relies on std::sync::mpsc::Receiver::recv: waits for a value; nothing
/// when the sender was dropped without sending.
#[verifier::external_body]
fn mpsc_recv<T>(rx: &std::sync::mpsc::Receiver<T>) -> (r: Option<T>) {
    rx.recv().ok()
}

/// Sender of a value channel.
#[derive(Debug)]
#[verifier::reject_recursive_types(T)]
pub struct Sender<T> {
    tx: Option<std::sync::mpsc::Sender<T>>,
}

impl<T> Sender<T> {
    /// Whether the one send is still available.
    pub closed spec fn spec_armed(&self) -> bool {
        self.tx is Some
    }

    /// Sends the value.
    ///
    /// Exactly the first send succeeds; every further send fails with
    /// [`AlreadySentError`].
    pub fn send(&mut self, value: T) -> (r: Result<(), AlreadySentError>)
        ensures
            !final(self).spec_armed(),
            match r {
                Ok(()) => old(self).spec_armed(),
                Err(e) => !old(self).spec_armed() && e == AlreadySentError,
            },
    {
        let mut tx: Option<std::sync::mpsc::Sender<T>> = None;
        core::mem::swap(&mut tx, &mut self.tx);
        match tx {
            Some(tx) => {
                let _ = mpsc_send(&tx, value);
                Ok(())
            },
            None => Err(AlreadySentError),
        }
    }
}

/// State of a receiver: still waiting on the channel, holding the
/// received value, or emptied by a take.
#[derive(Debug)]
#[verifier::reject_recursive_types(T)]
enum Slot<T> {
    Receiving(std::sync::mpsc::Receiver<T>),
    Received(T),
    Taken,
}

/// Receiver of a value channel.
#[derive(Debug)]
#[verifier::reject_recursive_types(T)]
pub struct Receiver<T> {
    slot: Slot<T>,
}

impl<T> Receiver<T> {
    /// Whether the receiver is still waiting for the value.
    pub closed spec fn spec_is_receiving(&self) -> bool {
        self.slot is Receiving
    }

    /// Whether the receiver holds the received value.
    pub closed spec fn spec_is_received(&self) -> bool {
        self.slot is Received
    }

    /// Whether the value was taken out of the receiver.
    pub closed spec fn spec_is_taken(&self) -> bool {
        self.slot is Taken
    }

    /// The held value.
    pub closed spec fn spec_value(&self) -> T
        recommends
            self.spec_is_received(),
    {
        self.slot->Received_0
    }

    /// Gets the value, if it has been sent.
    ///
    /// Once a value has arrived it is cached: every later call returns
    /// the same value.  [`RecvError::Empty`] and
    /// [`RecvError::Disconnected`] report a value that has not arrived
    /// and one that never will; [`RecvError::Taken`] reports a value
    /// that was already taken out.
    pub fn get(&mut self) -> (r: Result<&T, RecvError>)
        ensures
            match r {
                Ok(value) => {
                    &&& final(self).spec_is_received()
                    &&& *value == final(self).spec_value()
                    &&& old(self).spec_is_received() ==> final(self).spec_value() == old(self).spec_value()
                    &&& old(self).spec_is_received() || old(self).spec_is_receiving()
                },
                Err(e) => {
                    &&& (old(self).spec_is_taken() ==> e == RecvError::Taken && final(self).spec_is_taken())
                    &&& (!old(self).spec_is_taken() ==> old(self).spec_is_receiving() && final(self).spec_is_receiving() && (e == RecvError::Empty || e
                        == RecvError::Disconnected))
                },
            },
    {
        let mut slot = Slot::Taken;
        core::mem::swap(&mut slot, &mut self.slot);
        match slot {
            Slot::Receiving(rx) => {
                match mpsc_try_recv(&rx) {
                    Ok(value) => {
                        self.slot = Slot::Received(value);
                    },
                    Err(e) => {
                        self.slot = Slot::Receiving(rx);
                        return Err(e);
                    },
                }
            },
            Slot::Received(value) => {
                self.slot = Slot::Received(value);
            },
            Slot::Taken => {
                return Err(RecvError::Taken);
            },
        }
        match &self.slot {
            Slot::Received(value) => Ok(value),
            _ => {
                proof {
                    assert(false);
                }
                Err(RecvError::Taken)
            },
        }
    }

    /// Waits for the value.
    ///
    /// Blocks until the value arrives; fails with
    /// [`RecvError::Disconnected`] when the sender was dropped without
    /// sending, and with [`RecvError::Taken`] when the value was
    /// already taken out.
    pub fn wait(&mut self) -> (r: Result<&T, RecvError>)
        ensures
            match r {
                Ok(value) => {
                    &&& final(self).spec_is_received()
                    &&& *value == final(self).spec_value()
                    &&& old(self).spec_is_received() ==> final(self).spec_value() == old(self).spec_value()
                    &&& old(self).spec_is_received() || old(self).spec_is_receiving()
                },
                Err(e) => {
                    &&& (old(self).spec_is_taken() ==> e == RecvError::Taken && final(self).spec_is_taken())
                    &&& (!old(self).spec_is_taken() ==> old(self).spec_is_receiving() && final(self).spec_is_receiving() && e == RecvError::Disconnected)
                },
            },
    {
        let mut slot = Slot::Taken;
        core::mem::swap(&mut slot, &mut self.slot);
        match slot {
            Slot::Receiving(rx) => {
                match mpsc_recv(&rx) {
                    Some(value) => {
                        self.slot = Slot::Received(value);
                    },
                    None => {
                        self.slot = Slot::Receiving(rx);
                        return Err(RecvError::Disconnected);
                    },
                }
            },
            Slot::Received(value) => {
                self.slot = Slot::Received(value);
            },
            Slot::Taken => {
                return Err(RecvError::Taken);
            },
        }
        match &self.slot {
            Slot::Received(value) => Ok(value),
            _ => {
                proof {
                    assert(false);
                }
                Err(RecvError::Taken)
            },
        }
    }

    /// Takes the value out of the receiver, if it has been sent.
    ///
    /// After a successful take the receiver is empty for good.
    pub fn take(&mut self) -> (r: Result<T, RecvError>)
        ensures
            match r {
                Ok(value) => {
                    &&& final(self).spec_is_taken()
                    &&& old(self).spec_is_received() ==> value == old(self).spec_value()
                    &&& old(self).spec_is_received() || old(self).spec_is_receiving()
                },
                Err(e) => {
                    &&& (old(self).spec_is_taken() ==> e == RecvError::Taken && final(self).spec_is_taken())
                    &&& (!old(self).spec_is_taken() ==> old(self).spec_is_receiving() && final(self).spec_is_receiving() && (e == RecvError::Empty || e
                        == RecvError::Disconnected))
                },
            },
    {
        match self.get() {
            Ok(_) => {},
            Err(e) => {
                return Err(e);
            },
        }
        let mut slot = Slot::Taken;
        core::mem::swap(&mut slot, &mut self.slot);
        match slot {
            Slot::Received(value) => Ok(value),
            _ => {
                proof {
                    assert(false);
                }
                Err(RecvError::Taken)
            },
        }
    }
}

/// A receiver is always in exactly one state: waiting for the value,
/// holding it, or emptied by a take.  In particular, once the value was
/// taken, the receiver is neither receiving nor received, so every later
/// access fails with [`RecvError::Taken`].
pub proof fn lemma_receiver_state_exclusive<T>(r: &Receiver<T>)
    ensures
        r.spec_is_receiving() || r.spec_is_received() || r.spec_is_taken(),
        r.spec_is_receiving() ==> !r.spec_is_received() && !r.spec_is_taken(),
        r.spec_is_received() ==> !r.spec_is_receiving() && !r.spec_is_taken(),
        r.spec_is_taken() ==> !r.spec_is_receiving() && !r.spec_is_received(),
{
}

/// Creates a new value channel.
pub fn channel<T>() -> (r: (Sender<T>, Receiver<T>))
    ensures
        r.0.spec_armed(),
        r.1.spec_is_receiving(),
{
    let (tx, rx) = mpsc_channel();
    (Sender { tx: Some(tx) }, Receiver { slot: Slot::Receiving(rx) })
}

} // verus!
