//! The type-erased message envelope.
use crate::apply::apply;
use std::any::Any;
use std::sync::Arc;
use vstd::prelude::*;

verus! {

/// A value of a type that only its maker knows, together with the identity of
/// that type.
///
/// This is a `dyn Any` trait object, which the verifier cannot look into. The
/// field is hidden from it, and the three private functions below are the only
/// code that touches it.
#[verifier::external_body]
#[derive(Debug)]
struct Payload {
    boxed: Box<dyn Any + Send + Sync>,
}

/// Whether taking `payload` apart as a `T` gives `value`: whether `Ok(value)`
/// is a result that [`unpack`] has for it.
spec fn stores<T: 'static>(payload: Payload, value: T) -> bool {
    call_ensures(unpack::<T>, (payload,), Ok::<T, Payload>(value))
}

/// Whether taking `payload` apart as a `T` fails: whether handing `payload`
/// back is a result that [`unpack`] has for it.
spec fn keeps<T: 'static>(payload: Payload) -> bool {
    call_ensures(unpack::<T>, (payload,), Err::<T, Payload>(payload))
}

/// `Box::new`: moves `message` to the heap and forgets its type. Taken apart
/// again as a `T`, the box gives `message` back.
#[verifier::external_body]
fn pack<T: 'static + Send + Sync>(message: T) -> (payload: Payload)
    ensures
        stores(payload, message),
{
    Payload { boxed: Box::new(message) }
}

/// `<dyn Any>::downcast_ref`: a reference to the payload's value where it was
/// made from a `T`, and `None` where it was not. The value is the one, and the
/// only one, that taking the payload apart as a `T` gives, and where there is
/// one, taking the payload apart as a `T` does not fail. The payload is only
/// read.
#[verifier::external_body]
fn borrow_as<T: 'static>(payload: &Payload) -> (value: Option<&T>)
    ensures
        match value {
            Some(held) => {
                &&& stores(*payload, *held)
                &&& forall|other: T| stores(*payload, other) ==> other == *held
                &&& !keeps::<T>(*payload)
            },
            None => forall|other: T| !stores(*payload, other),
        },
{
    payload.boxed.downcast_ref::<T>()
}

/// `Box::<dyn Any>::downcast`: the payload's value where it was made from a
/// `T`. Otherwise `downcast` hands its box back, so the error is the payload
/// that came in.
#[verifier::external_body]
fn unpack<T: 'static>(payload: Payload) -> (value: Result<T, Payload>)
    ensures
        value matches Err(back) ==> back == payload,
{
    match payload.boxed.downcast::<T>() {
        Ok(value) => Ok(*value),
        Err(boxed) => Err(Payload { boxed }),
    }
}

/// `Arc::try_unwrap`: the inner value if `shared` is the only handle to it,
/// and otherwise the same handle that was passed in.
#[verifier::external_body]
fn into_sole_owner(shared: Arc<Payload>) -> (inner: Result<Payload, Arc<Payload>>)
    ensures
        match inner {
            Ok(payload) => payload == shared,
            Err(back) => back == shared,
        },
{
    Arc::try_unwrap(shared)
}

/// `Arc::clone`: another handle to the same allocation.
#[verifier::external_body]
fn another_handle(shared: &Arc<Payload>) -> (other: Arc<Payload>)
    ensures
        other == *shared,
{
    Arc::clone(shared)
}

/// A message whose concrete type is known only to the plugin that made it.
///
/// The value sits in a shared, reference-counted cell, so that it can travel
/// through the host, and it is only ever read back as the type it was made
/// from. A clone is a second handle to the same value, which is shared and not
/// copied; while both live, neither can be unwrapped by
/// [`MessageType::downcast`].
#[derive(Debug)]
pub struct MessageType {
    inner: Arc<Payload>,
}

impl Clone for MessageType {
    fn clone(&self) -> (other: Self)
        ensures
            other == *self,
    {
        MessageType { inner: another_handle(&self.inner) }
    }
}

impl MessageType {
    /// Whether the envelope holds `value`: whether it was made from a `T`, and
    /// from this one.
    pub closed spec fn holds<T: 'static>(self, value: T) -> bool {
        stores(*self.inner, value)
    }

    /// Whether `value` is what reading the envelope as a `T` gives: the one
    /// value that it holds, or `None` where it holds no `T`.
    pub open spec fn read_as<T: 'static>(self, value: Option<&T>) -> bool {
        match value {
            Some(held) => self.holds(*held) && forall|other: T|
                self.holds(other) ==> other == *held,
            None => forall|other: T| !self.holds(other),
        }
    }

    /// Whether `alone` tells what `Arc::try_unwrap` answers for this handle:
    /// `true` where it gives the value up, which it does for the only handle
    /// to a value, and `false` where it hands the handle back.
    pub closed spec fn gives_up(self, alone: bool) -> bool {
        exists|answer: Result<Payload, Arc<Payload>>|
            call_ensures(into_sole_owner, (self.inner,), answer) && (alone <==> answer is Ok)
    }

    /// Whether `taken` is what taking the envelope apart as a `T` may give:
    /// the one value that it holds, or the envelope itself; and of an envelope
    /// that holds a `T`, the value exactly where the handle gives it up.
    pub open spec fn taken_as<T: 'static>(self, taken: Result<T, MessageType>) -> bool {
        &&& match taken {
            Ok(held) => self.holds(held) && forall|other: T| self.holds(other) ==> other == held,
            Err(back) => back == self,
        }
        &&& (exists|held: T| self.holds(held)) ==> self.gives_up(taken is Ok)
    }

    /// Wraps `message`. This cannot fail.
    pub fn new<T: 'static + Send + Sync>(message: T) -> (envelope: Self)
        ensures
            envelope.holds(message),
    {
        MessageType { inner: Arc::new(pack(message)) }
    }

    /// The wrapped value, borrowed, if it was made from a `T`; `None` for any
    /// other type. The envelope is left as it was.
    pub fn downcast_ref<T: 'static>(&self) -> (value: Option<&T>)
        ensures
            self.read_as(value),
    {
        borrow_as::<T>(&self.inner)
    }

    /// Takes the wrapped value out, consuming the envelope.
    ///
    /// This succeeds only if the value was made from a `T` and no other handle
    /// to it is alive. Otherwise the caller gets back, as the error, the very
    /// envelope that was passed in: nothing is dropped and nothing is copied.
    /// Whether another handle is alive is not part of an envelope's value, so
    /// of an envelope that holds a `T` either result may come: which one is
    /// `Arc::try_unwrap`'s answer.
    pub fn downcast<T: 'static>(self) -> (taken: Result<T, MessageType>)
        ensures
            self.taken_as(taken),
    {
        if borrow_as::<T>(&self.inner).is_none() {
            return Err(self);
        }
        let answer = apply(into_sole_owner, self.inner);
        assert(self.gives_up(answer is Ok));
        match answer {
            Ok(payload) => match apply(unpack::<T>, payload) {
                Ok(value) => Ok(value),
                Err(payload) => Err(MessageType { inner: Arc::new(payload) }),
            },
            Err(inner) => Err(MessageType { inner }),
        }
    }

    /// What is read out of an envelope is what was put into it.
    ///
    /// `envelope` was made from `message`, and `value` is what reading it as a
    /// `T` gave.
    pub proof fn wrapped_value_is_read_back<T: 'static>(
        envelope: MessageType,
        message: T,
        value: Option<&T>,
    )
        requires
            envelope.holds(message),
            envelope.read_as(value),
        ensures
            value == Some(&message),
    {
    }

    /// What is taken out of an envelope is what was put into it, and an
    /// envelope that does not give its value up comes back as it was.
    ///
    /// `envelope` was made from `message`, and `taken` is what taking it apart
    /// as a `T` gave.
    pub proof fn wrapped_value_is_taken_or_kept<T: 'static>(
        envelope: MessageType,
        message: T,
        taken: Result<T, MessageType>,
    )
        requires
            envelope.holds(message),
            envelope.taken_as(taken),
        ensures
            taken == Ok::<T, MessageType>(message) || taken == Err::<T, MessageType>(envelope),
    {
    }

    /// An envelope that holds no `T` comes back whole from an attempt to take
    /// a `T` out of it.
    pub proof fn other_type_leaves_envelope<T: 'static>(
        envelope: MessageType,
        taken: Result<T, MessageType>,
    )
        requires
            forall|value: T| !envelope.holds(value),
            envelope.taken_as(taken),
        ensures
            taken == Err::<T, MessageType>(envelope),
    {
    }
}

} // verus!
