//! Dynamic events.
use std::any::{Any, TypeId};

use vstd::prelude::*;

use crate::frame::{debug_str, debug_text};
use crate::text::join;

verus! {

/// [`std::any::TypeId`], carried as an opaque value.
#[verifier::external_type_specification]
#[verifier::external_body]
pub struct ExTypeId(std::any::TypeId);

/// [`TypeId::of`]. Nothing is claimed of its result here; [`is_id_of`] reads which results it has
/// for a type.
pub assume_specification<T: ?Sized + 'static>[ TypeId::of::<T> ]() -> (id: TypeId);

/// `id` is a result of [`TypeId::of`] for `T`.
pub open spec fn is_id_of<T: 'static>(id: TypeId) -> bool {
    call_ensures(TypeId::of::<T>, (), id)
}

/// [`TypeId::of`]: it has one result for each type.
#[verifier::external_body]
pub(crate) fn type_id_of<T: 'static>() -> (id: TypeId)
    ensures
        is_id_of::<T>(id),
        forall|other: TypeId| #[trigger] is_id_of::<T>(other) ==> other == id,
{
    TypeId::of::<T>()
}

/// The `==` of [`TypeId`]: two identifiers are equal where they are the same value.
#[verifier::external_body]
pub(crate) fn same_type_id(a: &TypeId, b: &TypeId) -> (same: bool)
    ensures
        same == (*a == *b),
{
    a == b
}

/// A value whose type is known at run time only: a `Box<dyn Any + Send>`, which stands behind a
/// type of its own because it is an object of more than one trait.
#[verifier::external_body]
pub struct Payload {
    inner: Box<dyn Any + Send>,
}

/// What [`Any::type_id`] answers for the value in a box.
pub uninterp spec fn payload_type_id(payload: Payload) -> TypeId;

/// [`Box::new`], with the type of the value forgotten. The value in the box is of that type;
/// [`Payload::holds`] reads which values were boxed.
#[verifier::external_body]
fn erase<T: Send + 'static>(v: T) -> (payload: Payload)
    ensures
        is_id_of::<T>(payload_type_id(payload)),
{
    Payload { inner: Box::new(v) }
}

impl Payload {
    /// The box was made out of the value `v` of type `T`.
    pub closed spec fn holds<T: Send + 'static>(self, v: T) -> bool {
        call_ensures(erase::<T>, (v,), self)
    }

    /// [`Any::type_id`] of the value in the box.
    #[verifier::external_body]
    fn type_id(&self) -> (id: TypeId)
        ensures
            id == payload_type_id(*self),
    {
        Any::type_id(&*self.inner)
    }

    /// `<dyn Any>::is`: whether the box holds a value of type `T`, as its [`TypeId`] tells.
    #[verifier::external_body]
    fn is<T: Send + 'static>(&self) -> (yes: bool)
        ensures
            yes <==> exists|v: T| #[trigger] self.holds(v),
            yes <==> is_id_of::<T>(payload_type_id(*self)),
    {
        self.inner.is::<T>()
    }

    /// `<dyn Any>::downcast_ref`: the value in the box, if it is of type `T`, as its [`TypeId`]
    /// tells.
    #[verifier::external_body]
    fn downcast_ref<T: Send + 'static>(&self) -> (found: Option<&T>)
        ensures
            match found {
                Some(v) => forall|w: T| #[trigger] self.holds(w) <==> w == *v,
                None => forall|w: T| !#[trigger] self.holds(w),
            },
            found is Some <==> is_id_of::<T>(payload_type_id(*self)),
    {
        self.inner.downcast_ref::<T>()
    }

    /// `<dyn Any>::downcast_mut`: the value in the box, if it is of type `T`, as its [`TypeId`]
    /// tells; what is written through the reference is in the box afterwards, which holds a value
    /// of the same type.
    #[verifier::external_body]
    fn downcast_mut<T: Send + 'static>(&mut self) -> (found: Option<&mut T>)
        ensures
            match found {
                Some(v) => {
                    &&& forall|w: T| #[trigger] old(self).holds(w) <==> w == *v
                    &&& forall|w: T| #[trigger] final(self).holds(w) <==> w == *final(v)
                },
                None => {
                    &&& forall|w: T| !#[trigger] old(self).holds(w)
                    &&& *final(self) == *old(self)
                },
            },
            payload_type_id(*final(self)) == payload_type_id(*old(self)),
            found is Some <==> is_id_of::<T>(payload_type_id(*old(self))),
    {
        self.inner.downcast_mut::<T>()
    }

    /// `Box<dyn Any + Send>::downcast`: the value out of the box, if it is of type `T`, as its
    /// [`TypeId`] tells, and otherwise the box.
    #[verifier::external_body]
    fn downcast<T: Send + 'static>(self) -> (opened: Result<T, Payload>)
        ensures
            match opened {
                Ok(v) => forall|w: T| #[trigger] self.holds(w) <==> w == v,
                Err(payload) => {
                    &&& forall|w: T| !#[trigger] self.holds(w)
                    &&& payload == self
                },
            },
            opened is Ok <==> is_id_of::<T>(payload_type_id(self)),
    {
        match self.inner.downcast::<T>() {
            Ok(v) => Ok(*v),
            Err(inner) => Err(Payload { inner }),
        }
    }
}

/// A dynamic event: a value of any type, with the name of the type for debugging.
pub struct AnyEvent {
    inner: Payload,
    label: &'static str,
}

impl AnyEvent {
    /// The event is the value `v` of type `T`.
    pub closed spec fn carries<T: Send + 'static>(self, v: T) -> bool {
        self.inner.holds(v)
    }

    /// The identifier of the type of the value.
    pub closed spec fn inner_id(self) -> TypeId {
        payload_type_id(self.inner)
    }

    /// The name of the type of the value.
    pub closed spec fn label(self) -> Seq<char> {
        self.label@
    }

    /// Makes an event out of a value, labelled with the name of its type.
    #[must_use]
    pub fn new<T: Send + 'static>(v: T, label: &'static str) -> (event: Self)
        ensures
            event.carries(v),
            is_id_of::<T>(event.inner_id()),
            event.label() == label@,
    {
        let erase_value = erase::<T>;
        AnyEvent { inner: erase_value(v), label }
    }

    /// The identifier of the type of the value.
    #[must_use]
    pub fn inner_type_id(&self) -> (id: TypeId)
        ensures
            id == self.inner_id(),
    {
        self.inner.type_id()
    }

    /// The name of the type of the value.
    ///
    /// It is for debugging only: it is not stable and cannot be trusted.
    #[must_use]
    pub fn type_label(&self) -> (label: &'static str)
        ensures
            label@ == self.label(),
    {
        self.label
    }

    /// Whether the value is of type `T`.
    #[must_use]
    pub fn is<T: Send + 'static>(&self) -> (yes: bool)
        ensures
            yes <==> exists|v: T| #[trigger] self.carries(v),
            yes <==> is_id_of::<T>(self.inner_id()),
    {
        let yes = self.inner.is::<T>();
        proof {
            if yes {
                let v = choose|v: T| #[trigger] self.inner.holds(v);
                assert(self.carries(v));
            }
            if exists|v: T| #[trigger] self.carries(v) {
                let v = choose|v: T| #[trigger] self.carries(v);
                assert(self.inner.holds(v));
            }
        }
        yes
    }

    /// The value, if it is of type `T`.
    #[must_use]
    pub fn downcast_ref<T: Send + 'static>(&self) -> (found: Option<&T>)
        ensures
            match found {
                Some(v) => forall|w: T| #[trigger] self.carries(w) <==> w == *v,
                None => forall|w: T| !#[trigger] self.carries(w),
            },
            found is Some <==> is_id_of::<T>(self.inner_id()),
    {
        self.inner.downcast_ref::<T>()
    }

    /// The value to be changed in place, if it is of type `T`.
    #[must_use]
    pub fn downcast_mut<T: Send + 'static>(&mut self) -> (found: Option<&mut T>)
        ensures
            match found {
                Some(v) => {
                    &&& forall|w: T| #[trigger] old(self).carries(w) <==> w == *v
                    &&& forall|w: T| #[trigger] final(self).carries(w) <==> w == *final(v)
                },
                None => {
                    &&& forall|w: T| !#[trigger] old(self).carries(w)
                    &&& *final(self) == *old(self)
                },
            },
            found is Some <==> is_id_of::<T>(old(self).inner_id()),
            final(self).inner_id() == old(self).inner_id(),
            final(self).label() == old(self).label(),
    {
        self.inner.downcast_mut::<T>()
    }

    /// The value, if it is of type `T`.
    ///
    /// # Errors
    ///
    /// Gives the event back if the value is of another type.
    pub fn downcast<T: Send + 'static>(self) -> (opened: Result<T, Self>)
        ensures
            match opened {
                Ok(v) => forall|w: T| #[trigger] self.carries(w) <==> w == v,
                Err(event) => {
                    &&& forall|w: T| !#[trigger] self.carries(w)
                    &&& event == self
                },
            },
            opened is Ok <==> is_id_of::<T>(self.inner_id()),
    {
        match self.inner.downcast::<T>() {
            Ok(v) => Ok(v),
            Err(inner) => Err(AnyEvent { inner, label: self.label }),
        }
    }

    /// How the event is shown for debugging.
    pub open spec fn shown(self) -> Seq<char> {
        "AnyEvent { type_name: "@ + debug_text(self.label()) + ", .. }"@
    }

    /// Shows the event for debugging: the name of the type, but not the value.
    pub fn debug(&self) -> (text: String)
        ensures
            text@ == self.shown(),
    {
        let mut text = join("AnyEvent { type_name: ", debug_str(self.label).as_str());
        text.append(", .. }");
        text
    }
}

/// An event is of the type of the value that it was made of, and gives that value back, by
/// reference or by value. It is shown with the name that it was labelled with.
pub proof fn law_event_gives_its_value_back<T: Send + 'static>(
    v: T,
    label: &'static str,
    event: AnyEvent,
    yes: bool,
    found: Option<&T>,
    opened: Result<T, AnyEvent>,
    id: TypeId,
    name: &'static str,
    shown: String,
)
    requires
        call_ensures(AnyEvent::new::<T>, (v, label), event),
    ensures
        call_ensures(AnyEvent::inner_type_id, (&event,), id) ==> is_id_of::<T>(id),
        call_ensures(AnyEvent::type_label, (&event,), name) ==> name@ == label@,
        call_ensures(AnyEvent::is::<T>, (&event,), yes) ==> yes,
        call_ensures(AnyEvent::downcast_ref::<T>, (&event,), found) ==> (found matches Some(value)
            && *value == v),
        call_ensures(AnyEvent::downcast::<T>, (event,), opened) ==> opened == Ok::<T, AnyEvent>(v),
        call_ensures(AnyEvent::debug, (&event,), shown) ==> shown@ == "AnyEvent { type_name: "@
            + debug_text(label@) + ", .. }"@,
{
    assert(event.carries(v));
}

/// An event gives no value of another type, and whoever asks for one gets the event back as it was.
pub proof fn law_event_is_of_one_type<T: Send + 'static, U: Send + 'static>(
    v: T,
    label: &'static str,
    event: AnyEvent,
    yes: bool,
    found: Option<&U>,
    opened: Result<U, AnyEvent>,
)
    requires
        call_ensures(AnyEvent::new::<T>, (v, label), event),
        !is_id_of::<U>(event.inner_id()),
    ensures
        call_ensures(AnyEvent::is::<U>, (&event,), yes) ==> !yes,
        call_ensures(AnyEvent::downcast_ref::<U>, (&event,), found) ==> found is None,
        call_ensures(AnyEvent::downcast::<U>, (event,), opened) ==> opened == Err::<U, AnyEvent>(
            event,
        ),
{
}

/// What is written into the value of an event is in it afterwards, and nothing else of it changes.
pub proof fn law_event_is_changed_in_place<T: Send + 'static>()
    ensures
        forall|event: &mut AnyEvent, found: Option<&mut T>| #[trigger]
            call_ensures(AnyEvent::downcast_mut::<T>, (event,), found) ==> {
                &&& found is Some <==> is_id_of::<T>(event.inner_id())
                &&& found matches Some(value) ==> event.carries(*value) && final(event).carries(
                    *final(value),
                )
                &&& found is None ==> *final(event) == *event
                &&& final(event).inner_id() == event.inner_id()
                &&& final(event).label() == event.label()
            },
{
}

} // verus!
